use vstd::prelude::*;

use crate::error::CalcError;
use crate::operator::Operator;

verus! {

/// An expression tree: a leaf holding an integer, or an operator that owns
/// its two operands.
#[derive(Debug)]
pub enum Equation {
    Expression { op: Operator, left: Box<Equation>, right: Box<Equation> },
    Value(i32),
}

impl Equation {
    /// The arithmetic meaning of the tree, over unbounded integers.
    pub open spec fn value(self) -> int
        decreases self,
    {
        match self {
            Equation::Expression { op, left, right } => op.apply(left.value(), right.value()),
            Equation::Value(v) => v as int,
        }
    }

    /// Every node of the tree has a value within the range of `i32`.
    pub open spec fn fits(self) -> bool
        decreases self,
    {
        &&& i32::MIN <= self.value() <= i32::MAX
        &&& match self {
            Equation::Expression { left, right, .. } => left.fits() && right.fits(),
            Equation::Value(_) => true,
        }
    }

    /// Evaluates the tree with checked `i32` arithmetic, left operand first.
    ///
    /// Overflow is reported as an error rather than wrapped: the result is
    /// `Ok` exactly when every node's value fits in `i32`, and it is then the
    /// tree's arithmetic value.
    pub fn solve(&self) -> (r: Result<i32, CalcError>)
        ensures
            self.fits() ==> r == Ok::<i32, CalcError>(self.value() as i32),
            !self.fits() ==> r == Err::<i32, CalcError>(CalcError::ArithmeticOverflow),
        decreases self,
    {
        match self {
            Equation::Expression { op, left, right } => {
                let a = match left.solve() {
                    Ok(a) => a,
                    Err(e) => return Err(e),
                };
                let b = match right.solve() {
                    Ok(b) => b,
                    Err(e) => return Err(e),
                };
                let c = match op {
                    Operator::Plus => a.checked_add(b),
                    Operator::Minus => a.checked_sub(b),
                    Operator::Multiplication => a.checked_mul(b),
                };
                match c {
                    Some(v) => Ok(v),
                    None => Err(CalcError::ArithmeticOverflow),
                }
            },
            Equation::Value(v) => Ok(*v),
        }
    }
}

} // verus!
