//! The ways in which a line can fail.

use vstd::prelude::*;

verus! {

/// Why a line has no result. A position counts tokens from the left,
/// the first being 1.
#[derive(Clone, Copy, Debug, PartialEq, Eq, Structural)]
pub enum EvalError {
    /// The token at this position is neither an operand nor one of the
    /// five operators.
    InvalidToken(usize),
    /// The token at this position is no operand and found fewer than two
    /// values on the stack.
    InvalidSyntaxAt(usize),
    /// The line was read to its end and left no value on the stack, or
    /// more than one.
    InvalidSyntax,
    /// The operator at this position was asked to divide by zero.
    DivisionByZero(usize),
    /// The result of the operator at this position does not fit in 32
    /// bits.
    Overflow(usize),
}

impl EvalError {
    /// The position of the token that the failure is tied to, if it is
    /// tied to one.
    pub open spec fn at(self) -> Option<usize> {
        match self {
            EvalError::InvalidToken(p) => Some(p),
            EvalError::InvalidSyntaxAt(p) => Some(p),
            EvalError::InvalidSyntax => None,
            EvalError::DivisionByZero(p) => Some(p),
            EvalError::Overflow(p) => Some(p),
        }
    }

    /// The position of the token that the failure is tied to, if it is
    /// tied to one.
    pub fn position(&self) -> (p: Option<usize>)
        ensures
            p == self.at(),
    {
        match self {
            EvalError::InvalidToken(p) => Some(*p),
            EvalError::InvalidSyntaxAt(p) => Some(*p),
            EvalError::InvalidSyntax => None,
            EvalError::DivisionByZero(p) => Some(*p),
            EvalError::Overflow(p) => Some(*p),
        }
    }
}

} // verus!
