use vstd::prelude::*;

verus! {

/// Why an input could not be turned into a result.
#[derive(Clone, Copy, Debug, PartialEq, Eq, Structural)]
pub enum CalcError {
    /// The input holds a character outside digits, parentheses and operator glyphs.
    InvalidCharacter,
    /// Some literal that the builder reached is not a decimal integer that fits in `i32`.
    MalformedExpression,
    /// A node of the tree evaluates to a value outside the range of `i32`.
    ArithmeticOverflow,
}

} // verus!
