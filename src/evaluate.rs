use vstd::prelude::*;

use crate::builder::{build, parse_tree};
use crate::error::CalcError;
use crate::literal::is_digit;
use crate::operator::{is_operator, is_operator_char};

verus! {

/// The characters an input may hold: digits, parentheses and operator glyphs.
pub open spec fn is_supported_char(c: char) -> bool {
    is_operator_char(c) || c == '(' || c == ')' || is_digit(c)
}

/// Every character of `s` is supported.
pub open spec fn all_supported(s: Seq<char>) -> bool {
    forall|i: int| 0 <= i < s.len() ==> is_supported_char(#[trigger] s[i])
}

/// What evaluating the input `s` comes to: the character check first, then
/// the tree, then its value in `i32`.
pub open spec fn outcome(s: Seq<char>) -> Result<i32, CalcError> {
    if !all_supported(s) {
        Err(CalcError::InvalidCharacter)
    } else {
        match parse_tree(s) {
            None => Err(CalcError::MalformedExpression),
            Some(e) => if e.fits() {
                Ok(e.value() as i32)
            } else {
                Err(CalcError::ArithmeticOverflow)
            },
        }
    }
}

/// Whether `c` may stand in an input.
pub fn is_supported(c: char) -> (r: bool)
    ensures
        r == is_supported_char(c),
{
    is_operator(c) || c == '(' || c == ')' || ('0' as u32 <= c as u32 && c as u32 <= '9' as u32)
}

/// Whether every character of `input` may stand in an input.
pub fn check_symbols(input: &Vec<char>) -> (r: bool)
    ensures
        r == all_supported(input@),
{
    let mut i: usize = 0;
    while i < input.len()
        invariant
            0 <= i <= input.len(),
            forall|k: int| 0 <= k < i ==> is_supported_char(#[trigger] input@[k]),
        decreases input.len() - i,
    {
        if !is_supported(input[i]) {
            return false;
        }
        i = i + 1;
    }
    true
}

/// Checks the characters of `input`, builds its tree and evaluates it.
pub fn evaluate(input: Vec<char>) -> (r: Result<i32, CalcError>)
    ensures
        r == outcome(input@),
{
    if !check_symbols(&input) {
        return Err(CalcError::InvalidCharacter);
    }
    match build(input) {
        Ok(e) => e.solve(),
        Err(x) => Err(x),
    }
}

} // verus!
