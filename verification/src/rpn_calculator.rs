//! The calculator.

#![allow(unused_imports)]

use crate::error::EvalError;
use crate::lexer::tokenize;
use crate::machine::{evaluate, outcome, run, step_token};
use crate::trace::{
    lemma_completed, lemma_failure_lasts, snapshot, snapshots, Snapshot, TraceStep,
};
use vstd::prelude::*;

verus! {

/// A calculator for lines in reverse Polish notation. It is either quiet
/// or verbose, for good: a verbose one records the stack after each token.
pub struct RpnCalculator(bool);

impl RpnCalculator {
    /// Whether the calculator records a trace.
    pub closed spec fn is_verbose(&self) -> bool {
        self.0
    }

    /// What the calculator makes of `tokens`: their result, and the trace
    /// that it records, which is empty unless it is verbose.
    pub open spec fn report(&self, tokens: Seq<Seq<char>>) -> (Result<i32, EvalError>, Seq<Snapshot>) {
        (
            outcome(tokens),
            if self.is_verbose() {
                snapshots(tokens)
            } else {
                Seq::empty()
            },
        )
    }

    /// A calculator, verbose or not.
    pub fn new(verbose: bool) -> (calc: Self)
        ensures
            calc.is_verbose() == verbose,
    {
        Self(verbose)
    }

    /// Whether the calculator records a trace.
    pub fn verbose(&self) -> (verbose: bool)
        ensures
            verbose == self.is_verbose(),
    {
        self.0
    }

    /// The result of `formula`. It is a function of the line alone:
    /// neither the calculator's verbosity nor any line evaluated before
    /// has a part in it. The trace of a verbose calculator is had from
    /// `eval_inner`.
    pub fn eval(&self, formula: &str) -> (result: Result<i32, EvalError>)
        ensures
            result == evaluate(formula@),
    {
        let tokens = tokenize(formula);
        self.eval_inner(&tokens).0
    }

    /// Runs `tokens` through the machine, from the left and from an empty
    /// stack. Returns their result and, from a verbose calculator, the
    /// trace; a quiet one returns an empty trace.
    pub fn eval_inner(&self, tokens: &Vec<Vec<char>>) -> (report: (
        Result<i32, EvalError>,
        Vec<TraceStep>,
    ))
        ensures
            (report.0, report.1.deep_view()) == self.report(tokens.deep_view()),
    {
        let ghost words = tokens.deep_view();
        let count = tokens.len();
        let mut stack: Vec<i32> = Vec::new();
        let mut trace: Vec<TraceStep> = Vec::new();
        let mut pos: usize = 0;
        while pos < count
            invariant
                words == tokens.deep_view(),
                count == tokens.len(),
                pos <= count,
                run(words.take(pos as int)) == Ok::<Seq<i32>, EvalError>(stack@),
                trace.deep_view() == if self.is_verbose() {
                    Seq::new(pos as nat, |i: int| snapshot(words, i + 1))
                } else {
                    Seq::<Snapshot>::empty()
                },
            decreases count - pos,
        {
            let token = &tokens[pos];
            pos += 1;
            proof {
                let taken = words.take(pos as int);
                assert(taken.drop_last() =~= words.take(pos - 1));
                assert(taken.last() =~= token@);
            }
            match step_token(&mut stack, token, pos) {
                Ok(()) => {},
                Err(e) => {
                    proof {
                        lemma_completed(words, pos - 1);
                        lemma_failure_lasts(words, pos as int);
                        assert(trace.deep_view() =~= if self.is_verbose() {
                            snapshots(words)
                        } else {
                            Seq::<Snapshot>::empty()
                        });
                    }
                    return (Err(e), trace);
                },
            }
            if self.0 {
                let ghost before = trace.deep_view();
                let entry = TraceStep { position: pos, stack: stack.clone() };
                trace.push(entry);
                assert(trace.deep_view() =~= before.push(entry@));
            }
        }
        proof {
            assert(words.take(count as int) =~= words);
            lemma_completed(words, count as int);
            assert(trace.deep_view() =~= if self.is_verbose() {
                snapshots(words)
            } else {
                Seq::<Snapshot>::empty()
            });
        }
        if stack.len() == 1 {
            (Ok(stack[0]), trace)
        } else {
            (Err(EvalError::InvalidSyntax), trace)
        }
    }
}

} // verus!
