use fib_air::{
    check_trace, generate_trace_rows, ConstraintFailure, ConstraintKind, Felt, FibonacciAir,
    PublicInputs, SymbolicAirBuilder,
};

fn felt(u: u64) -> Felt {
    Felt::from_u64(u)
}

#[test]
pub fn fib_test() {
    let k = 5;
    let n = 2usize.pow(k);
    let air = FibonacciAir {};
    let num_public_values = 3;
    let trace = generate_trace_rows(0, 1, n);
    let mut builder: SymbolicAirBuilder = SymbolicAirBuilder::new(air.width(), num_public_values);
    air.eval(&mut builder);
    assert_eq!(trace.height(), n);
    assert_eq!(builder.recorded().len(), 5);
}

#[test]
fn first_row_holds_the_seeds() {
    let trace = generate_trace_rows(7, 9, 4);
    let row0 = trace.row(0);
    assert_eq!(row0.left, felt(7));
    assert_eq!(row0.right, felt(9));
}

#[test]
fn every_row_follows_the_recurrence() {
    let trace = generate_trace_rows(3, 5, 16);
    for i in 1..16 {
        let prev = trace.row(i - 1);
        let cur = trace.row(i);
        assert_eq!(cur.left, prev.right);
        assert_eq!(cur.right, prev.left.add(&prev.right));
    }
}

#[test]
fn fibonacci_values_from_zero_one() {
    let trace = generate_trace_rows(0, 1, 8);
    let rights = [1u64, 1, 2, 3, 5, 8, 13, 21];
    let lefts = [0u64, 1, 1, 2, 3, 5, 8, 13];
    for i in 0..8 {
        assert_eq!(trace.row(i).left, felt(lefts[i]));
        assert_eq!(trace.row(i).right, felt(rights[i]));
    }
}

#[test]
fn checking_a_generated_trace_passes() {
    let air = FibonacciAir {};
    let trace = generate_trace_rows(2, 5, 4);
    let last = trace.row(3);
    let pis = PublicInputs::new(felt(2), felt(5), last.right);
    assert_eq!(check_trace(&air, &trace, &pis), Ok(()));
}

#[test]
fn final_value_twenty_one_passes_twenty_fails() {
    let air = FibonacciAir {};
    let trace = generate_trace_rows(0, 1, 8);
    let good = PublicInputs::new(felt(0), felt(1), felt(21));
    assert_eq!(check_trace(&air, &trace, &good), Ok(()));
    let bad = PublicInputs::new(felt(0), felt(1), felt(20));
    assert_eq!(
        check_trace(&air, &trace, &bad),
        Err(ConstraintFailure { row: 7, kind: ConstraintKind::LastRow })
    );
}

#[test]
fn wrong_seeds_fail_at_the_first_row() {
    let air = FibonacciAir {};
    let trace = generate_trace_rows(0, 1, 8);
    let bad_a = PublicInputs::new(felt(4), felt(1), felt(21));
    assert_eq!(
        check_trace(&air, &trace, &bad_a),
        Err(ConstraintFailure { row: 0, kind: ConstraintKind::FirstRowLeft })
    );
    let bad_b = PublicInputs::new(felt(0), felt(2), felt(21));
    assert_eq!(
        check_trace(&air, &trace, &bad_b),
        Err(ConstraintFailure { row: 0, kind: ConstraintKind::FirstRowRight })
    );
}

#[test]
fn tampered_right_fails_at_the_transition_into_it() {
    let air = FibonacciAir {};
    let mut trace = generate_trace_rows(0, 1, 8);
    let pis = PublicInputs::new(felt(0), felt(1), felt(21));
    trace.set_right(3, felt(100));
    assert_eq!(
        check_trace(&air, &trace, &pis),
        Err(ConstraintFailure { row: 2, kind: ConstraintKind::TransitionSum })
    );
}

#[test]
fn tampered_last_right_fails_at_the_last_transition() {
    let air = FibonacciAir {};
    let mut trace = generate_trace_rows(0, 1, 8);
    let pis = PublicInputs::new(felt(0), felt(1), felt(100));
    trace.set_right(7, felt(100));
    assert_eq!(
        check_trace(&air, &trace, &pis),
        Err(ConstraintFailure { row: 6, kind: ConstraintKind::TransitionSum })
    );
}

#[test]
fn tampered_first_right_fails_at_the_boundary() {
    let air = FibonacciAir {};
    let mut trace = generate_trace_rows(0, 1, 8);
    let pis = PublicInputs::new(felt(0), felt(1), felt(21));
    trace.set_right(0, felt(100));
    assert_eq!(
        check_trace(&air, &trace, &pis),
        Err(ConstraintFailure { row: 0, kind: ConstraintKind::FirstRowRight })
    );
}

#[test]
fn tampered_left_fails_at_the_shift() {
    let air = FibonacciAir {};
    let mut trace = generate_trace_rows(0, 1, 8);
    let pis = PublicInputs::new(felt(0), felt(1), felt(21));
    trace.set_left(3, felt(100));
    assert_eq!(
        check_trace(&air, &trace, &pis),
        Err(ConstraintFailure { row: 2, kind: ConstraintKind::TransitionShift })
    );
}

#[test]
fn single_row_trace_checks_both_boundaries() {
    let air = FibonacciAir {};
    let trace = generate_trace_rows(3, 4, 1);
    assert_eq!(trace.height(), 1);
    let good = PublicInputs::new(felt(3), felt(4), felt(4));
    assert_eq!(check_trace(&air, &trace, &good), Ok(()));
    let bad_x = PublicInputs::new(felt(3), felt(4), felt(9));
    assert_eq!(
        check_trace(&air, &trace, &bad_x),
        Err(ConstraintFailure { row: 0, kind: ConstraintKind::LastRow })
    );
    let bad_a = PublicInputs::new(felt(8), felt(4), felt(4));
    assert_eq!(
        check_trace(&air, &trace, &bad_a),
        Err(ConstraintFailure { row: 0, kind: ConstraintKind::FirstRowLeft })
    );
}
