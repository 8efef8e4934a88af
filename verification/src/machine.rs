//! The stack machine: what a sequence of tokens does to a stack of
//! 32-bit signed integers.

#![allow(unused_imports)]

use crate::error::EvalError;
use crate::lexer::tokens;
use crate::number::{operand, parse_operand};
use crate::operator::{apply, apply_operator, operator, parse_operator};
use vstd::prelude::*;

verus! {

/// The stack after the token at `position`. An operand goes on top. Any
/// other token takes the two values on top, the upper one as its right
/// operand, and puts back what its operator makes of them. It fails where
/// the stack holds fewer than two values; with two at hand, it fails
/// where the token is no operator or where the operator's arithmetic
/// fails.
pub open spec fn step(stack: Seq<i32>, token: Seq<char>, position: usize) -> Result<
    Seq<i32>,
    EvalError,
> {
    match operand(token) {
        Some(value) => Ok(stack.push(value)),
        None => {
            if stack.len() < 2 {
                Err(EvalError::InvalidSyntaxAt(position))
            } else {
                match operator(token) {
                    None => Err(EvalError::InvalidToken(position)),
                    Some(op) => match apply(op, stack[stack.len() - 2], stack.last(), position) {
                        Ok(value) => Ok(stack.take(stack.len() - 2).push(value)),
                        Err(e) => Err(e),
                    },
                }
            }
        },
    }
}

/// The stack after all of `tokens`, taken from left to right and starting
/// from an empty stack, or the failure of the first token that fails.
pub open spec fn run(tokens: Seq<Seq<char>>) -> Result<Seq<i32>, EvalError>
    decreases tokens.len(),
{
    if tokens.len() == 0 {
        Ok(Seq::empty())
    } else {
        match run(tokens.drop_last()) {
            Ok(stack) => step(stack, tokens.last(), tokens.len() as usize),
            Err(e) => Err(e),
        }
    }
}

/// The result of `tokens`: the one value that they leave on the stack.
pub open spec fn outcome(tokens: Seq<Seq<char>>) -> Result<i32, EvalError> {
    match run(tokens) {
        Ok(stack) => if stack.len() == 1 {
            Ok(stack[0])
        } else {
            Err(EvalError::InvalidSyntax)
        },
        Err(e) => Err(e),
    }
}

/// The result of a line.
pub open spec fn evaluate(line: Seq<char>) -> Result<i32, EvalError> {
    outcome(tokens(line))
}

/// Lets the token at `position` act on `stack`. A token that fails leaves
/// the stack as it was.
pub fn step_token(stack: &mut Vec<i32>, token: &Vec<char>, position: usize) -> (r: Result<
    (),
    EvalError,
>)
    ensures
        match step(old(stack)@, token@, position) {
            Ok(after) => r is Ok && final(stack)@ == after,
            Err(e) => r == Err::<(), EvalError>(e) && final(stack)@ == old(stack)@,
        },
{
    match parse_operand(token) {
        Some(value) => {
            stack.push(value);
            Ok(())
        },
        None => {
            let depth = stack.len();
            if depth < 2 {
                return Err(EvalError::InvalidSyntaxAt(position));
            }
            match parse_operator(token) {
                None => Err(EvalError::InvalidToken(position)),
                Some(op) => {
                    let y = stack[depth - 1];
                    let x = stack[depth - 2];
                    match apply_operator(op, x, y, position) {
                        Ok(value) => {
                            stack.truncate(depth - 2);
                            stack.push(value);
                            Ok(())
                        },
                        Err(e) => Err(e),
                    }
                },
            }
        },
    }
}

} // verus!
