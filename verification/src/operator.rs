//! The five operators and their arithmetic on 32-bit signed integers.

use crate::error::EvalError;
use vstd::prelude::*;

verus! {

/// An arithmetic operator of two operands.
#[derive(Clone, Copy, Debug, PartialEq, Eq, Structural)]
pub enum Operator {
    /// `+`
    Add,
    /// `-`
    Sub,
    /// `*`
    Mul,
    /// `/`
    Div,
    /// `%`
    Rem,
}

/// The operator that `token` writes: the token is one character long,
/// and that character is `+`, `-`, `*`, `/` or `%`.
pub open spec fn operator(token: Seq<char>) -> Option<Operator> {
    if token.len() != 1 {
        None
    } else if token[0] == '+' {
        Some(Operator::Add)
    } else if token[0] == '-' {
        Some(Operator::Sub)
    } else if token[0] == '*' {
        Some(Operator::Mul)
    } else if token[0] == '/' {
        Some(Operator::Div)
    } else if token[0] == '%' {
        Some(Operator::Rem)
    } else {
        None
    }
}

/// The distance of `x` from zero.
pub open spec fn magnitude(x: int) -> int {
    if x < 0 {
        -x
    } else {
        x
    }
}

/// `x` divided by `y` and rounded toward zero, for `y` other than zero.
pub open spec fn quotient(x: int, y: int) -> int {
    if (x < 0) == (y < 0) {
        magnitude(x) / magnitude(y)
    } else {
        -(magnitude(x) / magnitude(y))
    }
}

/// What is left of `x` after taking out `quotient(x, y)` times `y`: it
/// has the sign of `x`, or is zero.
pub open spec fn remainder(x: int, y: int) -> int {
    if x < 0 {
        -(magnitude(x) % magnitude(y))
    } else {
        magnitude(x) % magnitude(y)
    }
}

/// What `op` makes of `x` and `y` as numbers without bound, for `y`
/// other than zero where `op` divides.
pub open spec fn exact(op: Operator, x: int, y: int) -> int {
    match op {
        Operator::Add => x + y,
        Operator::Sub => x - y,
        Operator::Mul => x * y,
        Operator::Div => quotient(x, y),
        Operator::Rem => remainder(x, y),
    }
}

/// Whether `v` is the value of some 32-bit signed integer.
pub open spec fn fits(v: int) -> bool {
    i32::MIN <= v <= i32::MAX
}

/// Whether `op` divides `x` by zero.
pub open spec fn divides_by_zero(op: Operator, y: int) -> bool {
    (op is Div || op is Rem) && y == 0
}

/// Whether `op` on `x` and `y` leaves the 32-bit range. A remainder is
/// taken together with its quotient and leaves the range where the
/// quotient does.
pub open spec fn overflows(op: Operator, x: int, y: int) -> bool {
    match op {
        Operator::Rem => !fits(quotient(x, y)),
        _ => !fits(exact(op, x, y)),
    }
}

/// What the operator at `position` makes of the operands `x` and `y`.
pub open spec fn apply(op: Operator, x: i32, y: i32, position: usize) -> Result<i32, EvalError> {
    if divides_by_zero(op, y as int) {
        Err(EvalError::DivisionByZero(position))
    } else if overflows(op, x as int, y as int) {
        Err(EvalError::Overflow(position))
    } else {
        Ok(exact(op, x as int, y as int) as i32)
    }
}

/// Dividing a number that is not negative by a positive one gives a
/// quotient between zero and the number, and leaves less than the divisor.
pub proof fn lemma_division_bounds(a: int, b: int)
    requires
        0 <= a,
        0 < b,
    ensures
        0 <= a / b <= a,
        0 <= a % b < b,
        b == 1 ==> a / b == a,
        a == 0 ==> a / b == 0 && a % b == 0,
        b >= 2 ==> 2 * (a / b) <= a,
{
    assert(b >= 2 ==> 2 * (a / b) <= a) by (nonlinear_arith)
        requires
            0 <= a,
            0 < b,
    ;
    assert(0 <= a / b <= a && 0 <= a % b < b && (b == 1 ==> a / b == a) && (a == 0 ==> a / b == 0
        && a % b == 0)) by (nonlinear_arith)
        requires
            0 <= a,
            0 < b,
    ;
}

/// Reads `token` as an operator.
pub fn parse_operator(token: &Vec<char>) -> (op: Option<Operator>)
    ensures
        op == operator(token@),
{
    if token.len() != 1 {
        return None;
    }
    let c = token[0];
    if c == '+' {
        Some(Operator::Add)
    } else if c == '-' {
        Some(Operator::Sub)
    } else if c == '*' {
        Some(Operator::Mul)
    } else if c == '/' {
        Some(Operator::Div)
    } else if c == '%' {
        Some(Operator::Rem)
    } else {
        None
    }
}

/// Computes what the operator at `position` makes of `x` and `y`.
pub fn apply_operator(op: Operator, x: i32, y: i32, position: usize) -> (r: Result<i32, EvalError>)
    ensures
        r == apply(op, x, y, position),
{
    if y == 0 {
        match op {
            Operator::Div | Operator::Rem => {
                return Err(EvalError::DivisionByZero(position));
            },
            _ => {},
        }
    }
    proof {
        if y != 0 {
            lemma_division_bounds(magnitude(x as int), magnitude(y as int));
        }
    }
    let value = match op {
        Operator::Add => x.checked_add(y),
        Operator::Sub => x.checked_sub(y),
        Operator::Mul => x.checked_mul(y),
        Operator::Div => x.checked_div(y),
        Operator::Rem => x.checked_rem(y),
    };
    match value {
        Some(v) => Ok(v),
        None => Err(EvalError::Overflow(position)),
    }
}

} // verus!
