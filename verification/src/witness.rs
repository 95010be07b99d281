//! The concrete capability provider: a per-row window over witness values.
//!
//! A `WitnessBuilder` hands the evaluator one two-row window of a concrete
//! trace together with the public values, and records every assertion the
//! evaluator makes, as values. Judging the recorded assertions against the
//! row's guards is the checker's business (see `check`); the provider itself
//! only records.

use vstd::prelude::*;
use crate::air::{AirBuilder, AirExpr, Scope, ScopedAssertion};
use crate::field::Felt;
use crate::row::FibonacciRow;
use crate::trace::PublicInputs;

verus! {

/// The concrete provider: one window of witness values, the public values,
/// and the assertions recorded over them.
pub struct WitnessBuilder {
    pub local: FibonacciRow<Felt>,
    pub next: FibonacciRow<Felt>,
    pub publics: PublicInputs,
    pub entries: Vec<ScopedAssertion<Felt>>,
}

impl WitnessBuilder {
    /// A fresh provider over one window, with nothing recorded yet.
    pub fn new(local: FibonacciRow<Felt>, next: FibonacciRow<Felt>, publics: &PublicInputs) -> (r:
        WitnessBuilder)
        ensures
            r.local == local,
            r.next == next,
            r.publics == *publics,
            r.entries@ == Seq::<ScopedAssertion<Felt>>::empty(),
    {
        WitnessBuilder { local, next, publics: *publics, entries: Vec::new() }
    }

    /// The recorded assertions, for whoever judges them.
    pub fn recorded(&self) -> (r: &Vec<ScopedAssertion<Felt>>)
        ensures
            r@ == self.asserts(),
    {
        &self.entries
    }
}

impl AirBuilder for WitnessBuilder {
    type Var = Felt;

    open spec fn asserts(&self) -> Seq<ScopedAssertion<Felt>> {
        self.entries@
    }

    open spec fn local_spec(&self) -> FibonacciRow<Felt> {
        self.local
    }

    open spec fn next_spec(&self) -> FibonacciRow<Felt> {
        self.next
    }

    open spec fn publics_spec(&self) -> (Felt, Felt, Felt) {
        (self.publics.a, self.publics.b, self.publics.x)
    }

    fn main_window(&self) -> (r: (FibonacciRow<Felt>, FibonacciRow<Felt>)) {
        (self.local, self.next)
    }

    fn public_values(&self) -> (r: (Felt, Felt, Felt)) {
        (self.publics.a, self.publics.b, self.publics.x)
    }

    fn assert_eq_in(&mut self, scope: Scope, lhs: AirExpr<Felt>, rhs: AirExpr<Felt>) {
        self.entries.push(ScopedAssertion { scope, lhs, rhs });
    }
}

} // verus!
