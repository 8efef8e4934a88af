//! What holds of every line and every calculator.

#![allow(unused_imports)]

use crate::error::EvalError;
use crate::lexer::{
    lemma_blank_line, lemma_single_token, lemma_word_holds_no_space, lemma_word_len_bounds, tokens,
    white_space, word_len,
};
use crate::machine::{evaluate, outcome, run};
use crate::number::{is_digit, operand};
use crate::operator::{
    apply, lemma_division_bounds, magnitude, operator, quotient, remainder,
};
use crate::rpn_calculator::RpnCalculator;
use crate::trace::{completed, snapshots};
use vstd::prelude::*;

verus! {

/// No token is empty, and none holds white space.
pub proof fn law_tokens_are_words(line: Seq<char>, k: int)
    requires
        0 <= k < tokens(line).len(),
    ensures
        tokens(line)[k].len() > 0,
        forall|i: int| 0 <= i < tokens(line)[k].len() ==> !white_space(#[trigger] tokens(line)[k][i]),
    decreases line.len(),
{
    if white_space(line[0]) {
        law_tokens_are_words(line.skip(1), k);
    } else {
        lemma_word_len_bounds(line);
        let n = word_len(line) as int;
        if k == 0 {
            assert forall|i: int| 0 <= i < n implies !white_space(#[trigger] line.take(n)[i]) by {
                lemma_word_holds_no_space(line, i);
            }
        } else {
            law_tokens_are_words(line.skip(n), k - 1);
        }
    }
}

/// A line that is one operand and nothing else evaluates to that
/// operand.
pub proof fn law_operand_alone(line: Seq<char>)
    requires
        operand(line) is Some,
    ensures
        evaluate(line) == Ok::<i32, EvalError>(operand(line)->0),
{
    assert forall|i: int| 0 <= i < line.len() implies !white_space(#[trigger] line[i]) by {
        if line[0] == '-' && i > 0 {
            assert(is_digit(line.skip(1)[i - 1]));
        }
    }
    lemma_single_token(line);
    let words = seq![line];
    assert(run(words.drop_last()) == Ok::<Seq<i32>, EvalError>(Seq::empty()));
}

/// Two operands and an operator after them evaluate to what the operator
/// makes of the two, the first operand on its left: the value, or the
/// arithmetic failure at position 3.
pub proof fn law_two_operands_and_operator(words: Seq<Seq<char>>)
    requires
        words.len() == 3,
        operand(words[0]) is Some,
        operand(words[1]) is Some,
        operator(words[2]) is Some,
    ensures
        outcome(words) == apply(operator(words[2])->0, operand(words[0])->0, operand(words[1])->0, 3),
{
    let x = operand(words[0])->0;
    let y = operand(words[1])->0;
    let none = words.take(0);
    let one = words.take(1);
    let two = words.take(2);
    assert(one.drop_last() =~= none);
    assert(two.drop_last() =~= one);
    assert(run(none) == Ok::<Seq<i32>, EvalError>(Seq::empty()));
    assert(run(one) == Ok::<Seq<i32>, EvalError>(seq![x]));
    assert(run(two) == Ok::<Seq<i32>, EvalError>(seq![x, y])) by {
        assert(seq![x].push(y) =~= seq![x, y]);
    }
    lemma_operator_is_no_operand(words[2]);
}

/// An operator is no operand: a lone `-` is the operator, and no sign
/// without digits.
pub proof fn lemma_operator_is_no_operand(token: Seq<char>)
    requires
        operator(token) is Some,
    ensures
        operand(token) is None,
{
}

/// Quotient and remainder take a number apart: the quotient times the
/// divisor, plus the remainder, is the number; the remainder is nearer to
/// zero than the divisor and is never on the other side of zero than the
/// number; so the quotient is the exact ratio rounded toward zero.
pub proof fn law_division(x: int, y: int)
    requires
        y != 0,
    ensures
        x == quotient(x, y) * y + remainder(x, y),
        magnitude(remainder(x, y)) < magnitude(y),
        x >= 0 ==> remainder(x, y) >= 0,
        x <= 0 ==> remainder(x, y) <= 0,
{
    let a = magnitude(x);
    let b = magnitude(y);
    lemma_division_bounds(a, b);
    assert(a == (a / b) * b + a % b) by (nonlinear_arith)
        requires
            b > 0,
    ;
    let q = a / b;
    assert((-q) * (-b) == q * b && (-q) * b == -(q * b) && q * (-b) == -(q * b))
        by (nonlinear_arith);
}

/// A line without a token, the empty line among them, fails with
/// `InvalidSyntax`.
pub proof fn law_blank_line_fails(line: Seq<char>)
    requires
        forall|i: int| 0 <= i < line.len() ==> white_space(#[trigger] line[i]),
    ensures
        evaluate(line) == Err::<i32, EvalError>(EvalError::InvalidSyntax),
{
    lemma_blank_line(line);
}

/// Where the machine fails, the failure names the position of the first
/// token that fails.
pub proof fn lemma_run_failure_position(words: Seq<Seq<char>>)
    requires
        words.len() <= usize::MAX,
        run(words) is Err,
    ensures
        completed(words) < words.len(),
        run(words)->Err_0.at() == Some((completed(words) + 1) as usize),
    decreases words.len(),
{
    let front = words.drop_last();
    if run(front) is Err {
        lemma_run_failure_position(front);
    } else {
        assert(completed(front) == front.len());
    }
}

/// A failure at a token names the position of the first token that fails,
/// which lies in the line; the failure without a position is that of a
/// line whose every token was taken.
pub proof fn law_failure_position(words: Seq<Seq<char>>)
    requires
        words.len() <= usize::MAX,
        outcome(words) is Err,
    ensures
        match outcome(words)->Err_0.at() {
            Some(p) => p == completed(words) + 1 && 1 <= p <= words.len(),
            None => completed(words) == words.len() && run(words) is Ok,
        },
{
    if run(words) is Err {
        lemma_run_failure_position(words);
    }
}

/// A calculator keeps nothing from one line to the next: what it reports
/// is fixed by its verbosity and the tokens, so the same line gives the
/// same report however often it is asked.
pub proof fn law_same_line_same_report(calc: RpnCalculator, first: Seq<char>, second: Seq<char>)
    requires
        first == second,
    ensures
        calc.report(tokens(first)) == calc.report(tokens(second)),
        calc.report(tokens(first)).0 == evaluate(first),
{
}

/// A verbose calculator and a quiet one give every line the same result.
/// They differ in the trace alone: the quiet one records none.
pub proof fn law_verbosity_keeps_result(verbose: RpnCalculator, quiet: RpnCalculator, line: Seq<char>)
    requires
        verbose.is_verbose(),
        !quiet.is_verbose(),
    ensures
        verbose.report(tokens(line)).0 == evaluate(line),
        quiet.report(tokens(line)).0 == evaluate(line),
        verbose.report(tokens(line)).1 == snapshots(tokens(line)),
        quiet.report(tokens(line)).1.len() == 0,
{
}

} // verus!
