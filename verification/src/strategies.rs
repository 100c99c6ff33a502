//! The strategy interface: a strategy turns an observed state into its
//! output — a decision, a request for more market data, or a failure.
//!
//! A strategy owns an immutable configuration and holds no cycle state of
//! its own: every evaluation starts from a fresh snapshot handed in by the
//! caller, and a new strategy kind is a new implementation of [`Strategy`],
//! not a change to the runner.

use vstd::prelude::*;

pub mod simple_strategy;

verus! {

pub trait Strategy: Sized {
    /// What the strategy evaluates: the snapshot or event handed in by the
    /// caller at one point of a cycle.
    type State;

    /// What an evaluation yields.
    type Output;

    /// What must hold of a state before it can be evaluated.
    spec fn evaluate_req(&self, state: &Self::State) -> bool;

    /// The output the strategy owes for `state`: `evaluate` returns exactly
    /// this value.
    spec fn decision_model(&self, state: &Self::State) -> Self::Output;

    /// One evaluation: derives the strategy's output from the state alone,
    /// with no side effect.
    fn evaluate(&self, state: Self::State) -> (out: Self::Output)
        requires
            self.evaluate_req(&state),
        ensures
            out == self.decision_model(&state),
    ;
}

} // verus!
