use vstd::prelude::*;

verus! {

/// The three binary operators of an expression.
#[derive(Clone, Copy, Debug, PartialEq, Eq, Structural)]
pub enum Operator {
    Plus,
    Minus,
    Multiplication,
}

/// The glyphs that denote an operator: `+`, `-`, and `*` or `x` for a product.
pub open spec fn is_operator_char(c: char) -> bool {
    c == '+' || c == '-' || c == '*' || c == 'x'
}

/// The operator that a glyph denotes.
pub open spec fn op_of(c: char) -> Operator
    recommends
        is_operator_char(c),
{
    if c == '+' {
        Operator::Plus
    } else if c == '-' {
        Operator::Minus
    } else {
        Operator::Multiplication
    }
}

/// Whether `c` is one of the operator glyphs.
pub fn is_operator(c: char) -> (r: bool)
    ensures
        r == is_operator_char(c),
{
    c == '+' || c == '-' || c == '*' || c == 'x'
}

/// The operator that the glyph `c` denotes.
pub fn operator_from_char(c: &char) -> (r: Operator)
    requires
        is_operator_char(*c),
    ensures
        r == op_of(*c),
{
    match *c {
        '+' => Operator::Plus,
        '-' => Operator::Minus,
        _ => Operator::Multiplication,
    }
}

impl Operator {
    /// The operator applied to two mathematical integers.
    pub open spec fn apply(self, a: int, b: int) -> int {
        match self {
            Operator::Plus => a + b,
            Operator::Minus => a - b,
            Operator::Multiplication => a * b,
        }
    }
}

} // verus!
