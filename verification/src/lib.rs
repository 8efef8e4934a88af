//! A calculator for arithmetic written in reverse Polish notation.
//!
//! A line of text is cut into tokens at white space, the tokens are run
//! through a stack machine over 32-bit signed integers, and the one value
//! left on the stack is the line's result. What each step computes is
//! stated by a spec function over sequences of characters, and the
//! executable code is proved to compute exactly that.

pub mod error;
pub mod laws;
pub mod lexer;
pub mod machine;
pub mod number;
pub mod operator;
pub mod rpn_calculator;
pub mod trace;
