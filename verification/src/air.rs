//! The constraint evaluator.
//!
//! `FibonacciAir::eval` states the recurrence's algebraic constraints exactly
//! once, against the abstract capability interface `AirBuilder`. A provider
//! of that interface decides what recording an assertion means — an immediate
//! check against witness values, or accumulation of a symbolic constraint —
//! and `eval`'s contract pins, for every provider, the exact sequence of five
//! scoped assertions it records.

use vstd::prelude::*;
use crate::row::FibonacciRow;

verus! {

/// Number of columns of the trace this system describes.
pub const NUM_FIBONACCI_COLS: usize = 2;

/// The guard under which an assertion is made: it must hold only at trace
/// index 0, at every adjacent pair of rows, or only at the final index.
#[derive(Clone, Copy, PartialEq, Eq, Structural, Debug)]
pub enum Scope {
    FirstRow,
    Transition,
    LastRow,
}

/// One side of a recorded assertion: either a single value of the provider's
/// value domain, or the field sum of two of them.
#[derive(Clone, Copy, PartialEq, Eq, Structural, Debug)]
pub enum AirExpr<V> {
    Value(V),
    Sum(V, V),
}

/// One recorded assertion: under guard `scope`, `lhs` equals `rhs`.
#[derive(Clone, Copy, PartialEq, Eq, Structural, Debug)]
pub struct ScopedAssertion<V> {
    pub scope: Scope,
    pub lhs: AirExpr<V>,
    pub rhs: AirExpr<V>,
}

/// The capability interface the evaluator consumes. A provider supplies a
/// two-row window (`local` and `next`), the three public values, and an
/// equality-assertion primitive; what it does with an assertion is its own
/// affair, but it must append it to its recorded sequence and must leave the
/// window and the public values as they were.
pub trait AirBuilder: Sized {
    /// The provider's value domain: concrete field elements for a witness
    /// checker, symbolic variables for a constraint accumulator.
    type Var;

    /// Every assertion recorded so far, oldest first.
    spec fn asserts(&self) -> Seq<ScopedAssertion<Self::Var>>;

    /// The window's local row.
    spec fn local_spec(&self) -> FibonacciRow<Self::Var>;

    /// The window's next row. Under a `LastRow` or `FirstRow` guard no
    /// assertion may mention it, and none of the evaluator's do.
    spec fn next_spec(&self) -> FibonacciRow<Self::Var>;

    /// The three public values, in the order `[a, b, x]`.
    spec fn publics_spec(&self) -> (Self::Var, Self::Var, Self::Var);

    /// The two rows an adjacency constraint may mention.
    fn main_window(&self) -> (r: (FibonacciRow<Self::Var>, FibonacciRow<Self::Var>))
        ensures
            r.0 == self.local_spec(),
            r.1 == self.next_spec(),
    ;

    /// The public values `(a, b, x)`.
    fn public_values(&self) -> (r: (Self::Var, Self::Var, Self::Var))
        ensures
            r == self.publics_spec(),
    ;

    /// Records the assertion that `lhs` equals `rhs` under `scope`.
    fn assert_eq_in(&mut self, scope: Scope, lhs: AirExpr<Self::Var>, rhs: AirExpr<Self::Var>)
        ensures
            final(self).asserts() == old(self).asserts().push(
                (ScopedAssertion { scope, lhs, rhs }),
            ),
            final(self).local_spec() == old(self).local_spec(),
            final(self).next_spec() == old(self).next_spec(),
            final(self).publics_spec() == old(self).publics_spec(),
    ;
}

/// The five assertions of the recurrence, in their fixed order, over a window
/// `(local, next)` and public values `(a, b, x)`.
pub open spec fn fibonacci_asserts<V>(
    local: FibonacciRow<V>,
    next: FibonacciRow<V>,
    a: V,
    b: V,
    x: V,
) -> Seq<ScopedAssertion<V>> {
    seq![
        ScopedAssertion {
            scope: Scope::FirstRow,
            lhs: AirExpr::Value(local.left),
            rhs: AirExpr::Value(a),
        },
        ScopedAssertion {
            scope: Scope::FirstRow,
            lhs: AirExpr::Value(local.right),
            rhs: AirExpr::Value(b),
        },
        ScopedAssertion {
            scope: Scope::Transition,
            lhs: AirExpr::Value(local.right),
            rhs: AirExpr::Value(next.left),
        },
        ScopedAssertion {
            scope: Scope::Transition,
            lhs: AirExpr::Sum(local.left, local.right),
            rhs: AirExpr::Value(next.right),
        },
        ScopedAssertion {
            scope: Scope::LastRow,
            lhs: AirExpr::Value(local.right),
            rhs: AirExpr::Value(x),
        },
    ]
}

/// The algebraic system of the shifted Fibonacci recurrence.
pub struct FibonacciAir {}

impl FibonacciAir {
    /// The trace has exactly two columns.
    pub fn width(&self) -> (r: usize)
        ensures
            r == 2,
    {
        NUM_FIBONACCI_COLS
    }

    /// States every constraint of the recurrence, once, against the given
    /// provider: the two first-row boundary constraints, the two transition
    /// constraints, and the last-row boundary constraint, in that order and
    /// with nothing else.
    pub fn eval<B: AirBuilder>(&self, builder: &mut B) where <B as AirBuilder>::Var: Copy
        ensures
            final(builder).asserts() == old(builder).asserts() + fibonacci_asserts(
                old(builder).local_spec(),
                old(builder).next_spec(),
                old(builder).publics_spec().0,
                old(builder).publics_spec().1,
                old(builder).publics_spec().2,
            ),
            final(builder).local_spec() == old(builder).local_spec(),
            final(builder).next_spec() == old(builder).next_spec(),
            final(builder).publics_spec() == old(builder).publics_spec(),
    {
        let (local, next) = builder.main_window();
        let (a, b, x) = builder.public_values();

        builder.assert_eq_in(Scope::FirstRow, AirExpr::Value(local.left), AirExpr::Value(a));
        builder.assert_eq_in(Scope::FirstRow, AirExpr::Value(local.right), AirExpr::Value(b));

        builder.assert_eq_in(Scope::Transition, AirExpr::Value(local.right), AirExpr::Value(next.left));
        builder.assert_eq_in(
            Scope::Transition,
            AirExpr::Sum(local.left, local.right),
            AirExpr::Value(next.right),
        );

        builder.assert_eq_in(Scope::LastRow, AirExpr::Value(local.right), AirExpr::Value(x));

        proof {
            assert(builder.asserts() =~= old(builder).asserts() + fibonacci_asserts(
                old(builder).local_spec(),
                old(builder).next_spec(),
                old(builder).publics_spec().0,
                old(builder).publics_spec().1,
                old(builder).publics_spec().2,
            ));
        }
    }
}

} // verus!
