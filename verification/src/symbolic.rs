//! The symbolic capability provider: constraint extraction.
//!
//! A `SymbolicAirBuilder` gives the evaluator a window of symbolic variables
//! instead of witness values, so what it records is the constraint system
//! itself — each assertion an equation between expressions over trace cells
//! and public values, still tagged with the guard it was made under — ready
//! for downstream polynomial analysis.

use vstd::prelude::*;
use crate::air::{fibonacci_asserts, AirBuilder, AirExpr, Scope, ScopedAssertion};
use crate::check::{first_left_ok, first_right_ok, last_ok, trace_ok};
use crate::field::{field_order, lemma_val_injective, val};
use crate::row::FibonacciRow;
use crate::trace::{lemma_recurrence_at, shift_ok, sum_ok, ExecutionTrace, PublicInputs};

verus! {

/// A symbolic variable: one cell of the two-row window, or one public value.
#[derive(Clone, Copy, PartialEq, Eq, Structural, Debug)]
pub enum SymVar {
    /// The trace cell at column `col` of the local row (`offset` 0) or the
    /// next row (`offset` 1).
    Entry { offset: usize, col: usize },
    /// The public value at `index` in `[a, b, x]`.
    Public { index: usize },
}

/// The symbolic provider: records the constraints the evaluator states, over
/// symbolic variables.
pub struct SymbolicAirBuilder {
    pub width: usize,
    pub num_public_values: usize,
    pub constraints: Vec<ScopedAssertion<SymVar>>,
}

impl SymbolicAirBuilder {
    /// A fresh accumulator for a trace of `width` columns and
    /// `num_public_values` public values, with nothing recorded yet.
    pub fn new(width: usize, num_public_values: usize) -> (r: SymbolicAirBuilder)
        ensures
            r.width == width,
            r.num_public_values == num_public_values,
            r.constraints@ == Seq::<ScopedAssertion<SymVar>>::empty(),
    {
        SymbolicAirBuilder { width, num_public_values, constraints: Vec::new() }
    }

    /// The accumulated symbolic constraint set, in the order it was recorded.
    pub fn recorded(&self) -> (r: &Vec<ScopedAssertion<SymVar>>)
        ensures
            r@ == self.asserts(),
    {
        &self.constraints
    }
}

impl AirBuilder for SymbolicAirBuilder {
    type Var = SymVar;

    open spec fn asserts(&self) -> Seq<ScopedAssertion<SymVar>> {
        self.constraints@
    }

    open spec fn local_spec(&self) -> FibonacciRow<SymVar> {
        FibonacciRow {
            left: SymVar::Entry { offset: 0, col: 0 },
            right: SymVar::Entry { offset: 0, col: 1 },
        }
    }

    open spec fn next_spec(&self) -> FibonacciRow<SymVar> {
        FibonacciRow {
            left: SymVar::Entry { offset: 1, col: 0 },
            right: SymVar::Entry { offset: 1, col: 1 },
        }
    }

    open spec fn publics_spec(&self) -> (SymVar, SymVar, SymVar) {
        (SymVar::Public { index: 0 }, SymVar::Public { index: 1 }, SymVar::Public { index: 2 })
    }

    fn main_window(&self) -> (r: (FibonacciRow<SymVar>, FibonacciRow<SymVar>)) {
        (
            FibonacciRow {
                left: SymVar::Entry { offset: 0, col: 0 },
                right: SymVar::Entry { offset: 0, col: 1 },
            },
            FibonacciRow {
                left: SymVar::Entry { offset: 1, col: 0 },
                right: SymVar::Entry { offset: 1, col: 1 },
            },
        )
    }

    fn public_values(&self) -> (r: (SymVar, SymVar, SymVar)) {
        (SymVar::Public { index: 0 }, SymVar::Public { index: 1 }, SymVar::Public { index: 2 })
    }

    fn assert_eq_in(&mut self, scope: Scope, lhs: AirExpr<SymVar>, rhs: AirExpr<SymVar>) {
        self.constraints.push(ScopedAssertion { scope, lhs, rhs });
    }
}

/// The symbolic constraint set the evaluator extracts: the five assertions
/// over the symbolic window and public values.
pub open spec fn symbolic_constraint_set() -> Seq<ScopedAssertion<SymVar>> {
    fibonacci_asserts(
        FibonacciRow {
            left: SymVar::Entry { offset: 0, col: 0 },
            right: SymVar::Entry { offset: 0, col: 1 },
        },
        FibonacciRow {
            left: SymVar::Entry { offset: 1, col: 0 },
            right: SymVar::Entry { offset: 1, col: 1 },
        },
        SymVar::Public { index: 0 },
        SymVar::Public { index: 1 },
        SymVar::Public { index: 2 },
    )
}

/// The integer a symbolic variable denotes over a concrete trace and public
/// inputs, with the window based at row `i`.
pub open spec fn sym_var_val(v: SymVar, t: &ExecutionTrace, pis: PublicInputs, i: int) -> int {
    match v {
        SymVar::Entry { offset, col } => {
            if col == 0 {
                val(t.row_spec(i + offset).left)
            } else {
                val(t.row_spec(i + offset).right)
            }
        },
        SymVar::Public { index } => {
            if index == 0 {
                val(pis.a)
            } else if index == 1 {
                val(pis.b)
            } else {
                val(pis.x)
            }
        },
    }
}

/// The integer a symbolic assertion side denotes at row `i`.
pub open spec fn sym_expr_val(e: AirExpr<SymVar>, t: &ExecutionTrace, pis: PublicInputs, i: int) -> int {
    match e {
        AirExpr::Value(v) => sym_var_val(v, t, pis, i),
        AirExpr::Sum(x, y) => (sym_var_val(x, t, pis, i) + sym_var_val(y, t, pis, i))
            % field_order(),
    }
}

/// Whether one symbolic assertion, read under its guard, holds of a concrete
/// trace with the window based at row `i`.
pub open spec fn sym_assert_holds_at(
    sa: ScopedAssertion<SymVar>,
    t: &ExecutionTrace,
    pis: PublicInputs,
    i: int,
) -> bool {
    match sa.scope {
        Scope::FirstRow => i == 0 ==> sym_expr_val(sa.lhs, t, pis, i) == sym_expr_val(
            sa.rhs,
            t,
            pis,
            i,
        ),
        Scope::Transition => i < t.height_spec() - 1 ==> sym_expr_val(sa.lhs, t, pis, i)
            == sym_expr_val(sa.rhs, t, pis, i),
        Scope::LastRow => i == t.height_spec() - 1 ==> sym_expr_val(sa.lhs, t, pis, i)
            == sym_expr_val(sa.rhs, t, pis, i),
    }
}

/// Whether every assertion of a symbolic constraint set holds at every row.
pub open spec fn sym_constraints_hold(
    cs: Seq<ScopedAssertion<SymVar>>,
    t: &ExecutionTrace,
    pis: PublicInputs,
) -> bool {
    forall|k: int, i: int|
        0 <= k < cs.len() && 0 <= i < t.height_spec() ==> #[trigger] sym_assert_holds_at(
            cs[k],
            t,
            pis,
            i,
        )
}

/// The two interpretations of the constraint description agree: the symbolic
/// constraint set the evaluator extracts, interpreted over a well-formed
/// concrete trace and public inputs, holds at every row exactly when the
/// concrete checker's whole system holds.
pub proof fn lemma_symbolic_constraints_faithful(t: &ExecutionTrace, pis: PublicInputs)
    requires
        t.wf(),
    ensures
        sym_constraints_hold(symbolic_constraint_set(), t, pis) <==> trace_ok(t, pis),
{
    let cs = symbolic_constraint_set();
    assert(t.height_spec() >= 1);
    if sym_constraints_hold(cs, t, pis) {
        assert(sym_assert_holds_at(cs[0], t, pis, 0));
        assert(sym_assert_holds_at(cs[1], t, pis, 0));
        assert(sym_assert_holds_at(cs[4], t, pis, t.height_spec() - 1));
        assert(first_left_ok(t, pis));
        assert(first_right_ok(t, pis));
        assert(last_ok(t, pis));
        assert forall|i: int| 0 <= i < t.height_spec() - 1 implies #[trigger] shift_ok(t, i)
            && sum_ok(t, i) by {
            assert(sym_assert_holds_at(cs[2], t, pis, i));
            assert(sym_assert_holds_at(cs[3], t, pis, i));
            lemma_val_injective(t.row_spec(i + 1).left, t.row_spec(i).right);
        }
    }
    if trace_ok(t, pis) {
        assert forall|k: int, i: int|
            0 <= k < cs.len() && 0 <= i < t.height_spec() implies #[trigger] sym_assert_holds_at(
            cs[k],
            t,
            pis,
            i,
        ) by {
            if 0 <= i < t.height_spec() - 1 {
                lemma_recurrence_at(t, i);
                lemma_val_injective(t.row_spec(i + 1).left, t.row_spec(i).right);
            }
        }
    }
}

} // verus!
