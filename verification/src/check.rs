//! Judging a concrete trace against the constraint system.
//!
//! `check_trace` runs the evaluator once per row over a `WitnessBuilder`
//! window and judges the recorded assertions under their guards. It returns
//! `Ok` exactly when every constraint holds, and otherwise the first failing
//! constraint in evaluation order — rows in order, and within a row the five
//! assertions in the order the evaluator records them.

use vstd::prelude::*;
use crate::air::{AirBuilder, AirExpr, FibonacciAir, Scope, ScopedAssertion};
use crate::field::{canonical, field_order, lemma_val_injective, val, Felt};
use crate::trace::{
    follows_recurrence, lemma_recurrence_at, shift_ok, sum_ok, ExecutionTrace, PublicInputs,
};
use crate::witness::WitnessBuilder;

verus! {

/// Which of the five constraints failed.
#[derive(Clone, Copy, PartialEq, Eq, Structural, Debug)]
pub enum ConstraintKind {
    FirstRowLeft,
    FirstRowRight,
    TransitionShift,
    TransitionSum,
    LastRow,
}

/// A constraint violation: which constraint, at which row.
#[derive(Clone, Copy, PartialEq, Eq, Structural, Debug)]
pub struct ConstraintFailure {
    pub row: usize,
    pub kind: ConstraintKind,
}

/// The integer an assertion side denotes over concrete values.
pub open spec fn expr_val(e: AirExpr<Felt>) -> int {
    match e {
        AirExpr::Value(v) => val(v),
        AirExpr::Sum(x, y) => (val(x) + val(y)) % field_order(),
    }
}

pub open spec fn expr_canonical(e: AirExpr<Felt>) -> bool {
    match e {
        AirExpr::Value(v) => canonical(v),
        AirExpr::Sum(x, y) => canonical(x) && canonical(y),
    }
}

/// Evaluates an assertion side to the field element it denotes.
pub fn eval_expr(e: &AirExpr<Felt>) -> (r: Felt)
    requires
        expr_canonical(*e),
    ensures
        canonical(r),
        val(r) == expr_val(*e),
{
    match e {
        AirExpr::Value(v) => *v,
        AirExpr::Sum(x, y) => x.add(y),
    }
}

/// Decides whether the two sides of an assertion denote the same field
/// element.
pub fn exprs_equal(l: &AirExpr<Felt>, r: &AirExpr<Felt>) -> (b: bool)
    requires
        expr_canonical(*l),
        expr_canonical(*r),
    ensures
        b == (expr_val(*l) == expr_val(*r)),
{
    let lv = eval_expr(l);
    let rv = eval_expr(r);
    proof {
        lemma_val_injective(lv, rv);
    }
    lv == rv
}

/// First boundary constraint: row 0's `left` is the public seed `a`.
pub open spec fn first_left_ok(t: &ExecutionTrace, pis: PublicInputs) -> bool {
    val(t.row_spec(0).left) == val(pis.a)
}

/// Second boundary constraint: row 0's `right` is the public seed `b`.
pub open spec fn first_right_ok(t: &ExecutionTrace, pis: PublicInputs) -> bool {
    val(t.row_spec(0).right) == val(pis.b)
}

/// Final boundary constraint: the last row's `right` is the public value `x`.
pub open spec fn last_ok(t: &ExecutionTrace, pis: PublicInputs) -> bool {
    val(t.row_spec(t.height_spec() - 1).right) == val(pis.x)
}

/// The whole system holds: both first-row boundaries, every transition, and
/// the last-row boundary.
pub open spec fn trace_ok(t: &ExecutionTrace, pis: PublicInputs) -> bool {
    &&& first_left_ok(t, pis)
    &&& first_right_ok(t, pis)
    &&& follows_recurrence(t)
    &&& last_ok(t, pis)
}

/// The first constraint violated at row `i`, if any, in the order the
/// evaluator records the five assertions; a guard that does not cover row `i`
/// is skipped.
pub open spec fn row_bad_kind(t: &ExecutionTrace, pis: PublicInputs, i: int) -> Option<
    ConstraintKind,
> {
    if i == 0 && !first_left_ok(t, pis) {
        Some(ConstraintKind::FirstRowLeft)
    } else if i == 0 && !first_right_ok(t, pis) {
        Some(ConstraintKind::FirstRowRight)
    } else if i < t.height_spec() - 1 && !shift_ok(t, i) {
        Some(ConstraintKind::TransitionShift)
    } else if i < t.height_spec() - 1 && !sum_ok(t, i) {
        Some(ConstraintKind::TransitionSum)
    } else if i == t.height_spec() - 1 && !last_ok(t, pis) {
        Some(ConstraintKind::LastRow)
    } else {
        None
    }
}

/// The first constraint violated at row `i` or later, if any.
pub open spec fn first_failure_from(t: &ExecutionTrace, pis: PublicInputs, i: int) -> Option<
    ConstraintFailure,
>
    decreases t.height_spec() - i,
{
    if i < 0 || i >= t.height_spec() {
        None
    } else if row_bad_kind(t, pis, i) is Some {
        Some(ConstraintFailure { row: i as usize, kind: row_bad_kind(t, pis, i)->Some_0 })
    } else {
        first_failure_from(t, pis, i + 1)
    }
}

/// What checking a trace must return: `Ok`, or the first violated constraint
/// in evaluation order.
pub open spec fn check_spec(t: &ExecutionTrace, pis: PublicInputs) -> Result<
    (),
    ConstraintFailure,
> {
    match first_failure_from(t, pis, 0) {
        None => Ok(()),
        Some(f) => Err(f),
    }
}

/// Skipping rows with no violation does not change the first failure.
proof fn lemma_skip_clean_rows(t: &ExecutionTrace, pis: PublicInputs, i: int, j: int)
    requires
        0 <= i <= j <= t.height_spec(),
        forall|k: int| i <= k < j ==> #[trigger] row_bad_kind(t, pis, k) is None,
    ensures
        first_failure_from(t, pis, i) == first_failure_from(t, pis, j),
    decreases j - i,
{
    if i < j {
        lemma_skip_clean_rows(t, pis, i + 1, j);
    }
}

/// There is no failure from row `i` on exactly when no row from `i` on has
/// one.
proof fn lemma_no_failure_iff_rows_clean(t: &ExecutionTrace, pis: PublicInputs, i: int)
    requires
        0 <= i <= t.height_spec(),
    ensures
        first_failure_from(t, pis, i) is None <==> forall|k: int|
            i <= k < t.height_spec() ==> #[trigger] row_bad_kind(t, pis, k) is None,
    decreases t.height_spec() - i,
{
    if i < t.height_spec() {
        lemma_no_failure_iff_rows_clean(t, pis, i + 1);
    }
}

/// No row has a violation exactly when the whole system holds.
proof fn lemma_rows_clean_iff_trace_ok(t: &ExecutionTrace, pis: PublicInputs)
    requires
        t.wf(),
    ensures
        (forall|k: int| 0 <= k < t.height_spec() ==> #[trigger] row_bad_kind(t, pis, k) is None)
            <==> trace_ok(t, pis),
{
    assert(t.height_spec() >= 1);
    if forall|k: int| 0 <= k < t.height_spec() ==> #[trigger] row_bad_kind(t, pis, k) is None {
        assert(row_bad_kind(t, pis, 0) is None);
        assert(row_bad_kind(t, pis, t.height_spec() - 1) is None);
        assert forall|i: int| 0 <= i < t.height_spec() - 1 implies #[trigger] shift_ok(t, i)
            && sum_ok(t, i) by {
            assert(row_bad_kind(t, pis, i) is None);
        }
    }
}

/// Checks every constraint of the system against a concrete trace, by running
/// the evaluator once per row over a witness window and judging what it
/// recorded under each guard. Returns `Ok` exactly when the whole system
/// holds, and otherwise the first violated constraint in evaluation order.
pub fn check_trace(air: &FibonacciAir, trace: &ExecutionTrace, pis: &PublicInputs) -> (r: Result<
    (),
    ConstraintFailure,
>)
    requires
        trace.wf(),
        pis.wf(),
    ensures
        r == check_spec(trace, *pis),
        r is Ok <==> trace_ok(trace, *pis),
{
    let n = trace.height();
    assert(n >= 1);
    let mut i: usize = 0;
    while i < n
        invariant
            trace.wf(),
            pis.wf(),
            n == trace.height_spec(),
            0 <= i <= n,
            forall|k: int| 0 <= k < i ==> #[trigger] row_bad_kind(trace, *pis, k) is None,
        decreases n - i,
    {
        let next_index = if i + 1 < n { i + 1 } else { 0 };
        let mut builder = WitnessBuilder::new(trace.row(i), trace.row(next_index), pis);
        air.eval(&mut builder);
        let entries = builder.recorded();
        if i == 0 {
            if !exprs_equal(&entries[0].lhs, &entries[0].rhs) {
                proof {
                    lemma_skip_clean_rows(trace, *pis, 0, i as int);
                }
                return Err(ConstraintFailure { row: i, kind: ConstraintKind::FirstRowLeft });
            }
            if !exprs_equal(&entries[1].lhs, &entries[1].rhs) {
                proof {
                    lemma_skip_clean_rows(trace, *pis, 0, i as int);
                }
                return Err(ConstraintFailure { row: i, kind: ConstraintKind::FirstRowRight });
            }
        }
        if i + 1 < n {
            if !exprs_equal(&entries[2].lhs, &entries[2].rhs) {
                proof {
                    lemma_skip_clean_rows(trace, *pis, 0, i as int);
                }
                return Err(ConstraintFailure { row: i, kind: ConstraintKind::TransitionShift });
            }
            if !exprs_equal(&entries[3].lhs, &entries[3].rhs) {
                proof {
                    lemma_val_injective(
                        trace.row_spec(i as int).right,
                        trace.row_spec(i as int + 1).left,
                    );
                    lemma_skip_clean_rows(trace, *pis, 0, i as int);
                }
                return Err(ConstraintFailure { row: i, kind: ConstraintKind::TransitionSum });
            }
        }
        if i + 1 == n {
            if !exprs_equal(&entries[4].lhs, &entries[4].rhs) {
                proof {
                    lemma_skip_clean_rows(trace, *pis, 0, i as int);
                }
                return Err(ConstraintFailure { row: i, kind: ConstraintKind::LastRow });
            }
        }
        proof {
            if i + 1 < n {
                lemma_val_injective(
                    trace.row_spec(i as int).right,
                    trace.row_spec(i as int + 1).left,
                );
            }
            assert(row_bad_kind(trace, *pis, i as int) is None);
        }
        i = i + 1;
    }
    proof {
        lemma_skip_clean_rows(trace, *pis, 0, n as int);
        lemma_rows_clean_iff_trace_ok(trace, *pis);
    }
    Ok(())
}

/// Evaluating the system over a trace that the generator built, with its own
/// seeds and its own final value as public inputs, always passes.
pub proof fn lemma_round_trip(t: &ExecutionTrace, pis: PublicInputs)
    requires
        t.wf(),
        val(pis.a) == val(t.row_spec(0).left),
        val(pis.b) == val(t.row_spec(0).right),
        val(pis.x) == val(t.row_spec(t.height_spec() - 1).right),
        follows_recurrence(t),
    ensures
        trace_ok(t, pis),
        check_spec(t, pis) == Ok::<(), ConstraintFailure>(()),
{
    lemma_rows_clean_iff_trace_ok(t, pis);
    lemma_no_failure_iff_rows_clean(t, pis, 0);
}

/// Changing one row's `right` value in a passing trace, and nothing else, is
/// caught by exactly the constraint that reads it first: the transition sum
/// into that row, or, at row 0, the second boundary constraint.
pub proof fn lemma_tampered_right_detected(
    t: &ExecutionTrace,
    t2: &ExecutionTrace,
    pis: PublicInputs,
    i: int,
)
    requires
        t.wf(),
        t2.wf(),
        trace_ok(t, pis),
        t2.height_spec() == t.height_spec(),
        0 <= i < t.height_spec(),
        forall|j: int| 0 <= j < t.height_spec() ==> (#[trigger] t2.row_spec(j)).left == t.row_spec(
            j,
        ).left,
        forall|j: int| 0 <= j < t.height_spec() && j != i ==> (#[trigger] t2.row_spec(j)).right
            == t.row_spec(j).right,
        val(t2.row_spec(i).right) != val(t.row_spec(i).right),
    ensures
        check_spec(t2, pis) == Err::<(), ConstraintFailure>(
            if i == 0 {
                ConstraintFailure { row: 0, kind: ConstraintKind::FirstRowRight }
            } else {
                ConstraintFailure { row: (i - 1) as usize, kind: ConstraintKind::TransitionSum }
            },
        ),
{
    if i == 0 {
        assert(!first_right_ok(t2, pis));
        assert(first_left_ok(t2, pis));
        assert(row_bad_kind(t2, pis, 0) == Some(ConstraintKind::FirstRowRight));
    } else {
        assert forall|k: int| 0 <= k < i - 1 implies #[trigger] row_bad_kind(t2, pis, k)
            is None by {
            lemma_recurrence_at(t, k);
            assert(t2.row_spec(k).right == t.row_spec(k).right);
            assert(t2.row_spec(k + 1).right == t.row_spec(k + 1).right);
        }
        lemma_skip_clean_rows(t2, pis, 0, i - 1);
        lemma_recurrence_at(t, i - 1);
        assert(t2.row_spec(i - 1).right == t.row_spec(i - 1).right);
        assert(shift_ok(t2, i - 1));
        assert(!sum_ok(t2, i - 1));
        if i - 1 == 0 {
            assert(first_left_ok(t2, pis));
            assert(first_right_ok(t2, pis));
        }
        assert(row_bad_kind(t2, pis, i - 1) == Some(ConstraintKind::TransitionSum));
    }
}

} // verus!
