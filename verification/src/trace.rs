//! What a verbose calculator records while it works through a line.

#![allow(unused_imports)]

use crate::machine::run;
use vstd::prelude::*;

verus! {

/// The state of the machine after one token.
#[derive(Debug, PartialEq, Eq)]
pub struct TraceStep {
    /// The position of the token that was taken last: the number of
    /// tokens taken so far. The tokens after it are still to come.
    pub position: usize,
    /// The stack after that token, its top last.
    pub stack: Vec<i32>,
}

/// A `TraceStep` as a mathematical value.
pub struct Snapshot {
    /// The number of tokens taken so far.
    pub position: nat,
    /// The stack after them, its top last.
    pub stack: Seq<i32>,
}

impl View for TraceStep {
    type V = Snapshot;

    open spec fn view(&self) -> Snapshot {
        Snapshot { position: self.position as nat, stack: self.stack@ }
    }
}

impl DeepView for TraceStep {
    type V = Snapshot;

    open spec fn deep_view(&self) -> Snapshot {
        self@
    }
}

/// How many tokens the machine takes before the first one that fails:
/// all of them where none fails.
pub open spec fn completed(tokens: Seq<Seq<char>>) -> nat
    decreases tokens.len(),
{
    if tokens.len() == 0 || run(tokens) is Ok {
        tokens.len()
    } else {
        completed(tokens.drop_last())
    }
}

/// The machine after the first `count` tokens, none of which fails.
pub open spec fn snapshot(tokens: Seq<Seq<char>>, count: int) -> Snapshot {
    Snapshot { position: count as nat, stack: run(tokens.take(count))->Ok_0 }
}

/// The trace of `tokens`: one snapshot after each token that the machine
/// takes without failing, in order.
pub open spec fn snapshots(tokens: Seq<Seq<char>>) -> Seq<Snapshot> {
    Seq::new(completed(tokens), |i: int| snapshot(tokens, i + 1))
}

/// Once a token has failed, the failure stands whatever follows.
pub proof fn lemma_failure_lasts(tokens: Seq<Seq<char>>, count: int)
    requires
        0 <= count <= tokens.len(),
        run(tokens.take(count)) is Err,
    ensures
        run(tokens) == run(tokens.take(count)),
    decreases tokens.len(),
{
    if count == tokens.len() {
        assert(tokens.take(count) =~= tokens);
    } else {
        assert(tokens.drop_last().take(count) =~= tokens.take(count));
        lemma_failure_lasts(tokens.drop_last(), count);
    }
}

/// The machine completes `count` tokens where it gets through the first
/// `count` and either no token follows or the next one fails.
pub proof fn lemma_completed(tokens: Seq<Seq<char>>, count: int)
    requires
        0 <= count <= tokens.len(),
        run(tokens.take(count)) is Ok,
        count < tokens.len() ==> run(tokens.take(count + 1)) is Err,
    ensures
        completed(tokens) == count,
    decreases tokens.len(),
{
    if count == tokens.len() {
        assert(tokens.take(count) =~= tokens);
    } else {
        lemma_failure_lasts(tokens, count + 1);
        assert(tokens.drop_last().take(count) =~= tokens.take(count));
        if count + 1 < tokens.len() {
            assert(tokens.drop_last().take(count + 1) =~= tokens.take(count + 1));
        }
        lemma_completed(tokens.drop_last(), count);
    }
}

} // verus!
