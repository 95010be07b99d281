use fib_air::{
    AirExpr, Felt, FibonacciAir, FibonacciRow, Scope, ScopedAssertion, SymVar, SymbolicAirBuilder,
    is_power_of_two,
};

fn felt(u: u64) -> Felt {
    Felt::from_u64(u)
}

#[test]
fn air_width_is_two() {
    let air = FibonacciAir {};
    assert_eq!(air.width(), 2);
}

#[test]
fn row_codec_round_trips() {
    let row: FibonacciRow<Felt> = FibonacciRow::new(felt(10), felt(11));
    assert_eq!(row.left, felt(10));
    assert_eq!(row.right, felt(11));
    let flat = row.to_flat();
    assert_eq!(flat.len(), 2);
    let back = FibonacciRow::from_flat(flat.as_slice());
    assert_eq!(back.left, felt(10));
    assert_eq!(back.right, felt(11));
}

#[test]
fn power_of_two_recognition() {
    assert!(is_power_of_two(1));
    assert!(is_power_of_two(2));
    assert!(is_power_of_two(8));
    assert!(is_power_of_two(1024));
    assert!(!is_power_of_two(0));
    assert!(!is_power_of_two(3));
    assert!(!is_power_of_two(12));
}

#[test]
fn symbolic_evaluation_extracts_the_five_constraints() {
    let air = FibonacciAir {};
    let mut builder = SymbolicAirBuilder::new(air.width(), 3);
    air.eval(&mut builder);
    let local_left = SymVar::Entry { offset: 0, col: 0 };
    let local_right = SymVar::Entry { offset: 0, col: 1 };
    let next_left = SymVar::Entry { offset: 1, col: 0 };
    let next_right = SymVar::Entry { offset: 1, col: 1 };
    let a = SymVar::Public { index: 0 };
    let b = SymVar::Public { index: 1 };
    let x = SymVar::Public { index: 2 };
    let expected = vec![
        ScopedAssertion {
            scope: Scope::FirstRow,
            lhs: AirExpr::Value(local_left),
            rhs: AirExpr::Value(a),
        },
        ScopedAssertion {
            scope: Scope::FirstRow,
            lhs: AirExpr::Value(local_right),
            rhs: AirExpr::Value(b),
        },
        ScopedAssertion {
            scope: Scope::Transition,
            lhs: AirExpr::Value(local_right),
            rhs: AirExpr::Value(next_left),
        },
        ScopedAssertion {
            scope: Scope::Transition,
            lhs: AirExpr::Sum(local_left, local_right),
            rhs: AirExpr::Value(next_right),
        },
        ScopedAssertion {
            scope: Scope::LastRow,
            lhs: AirExpr::Value(local_right),
            rhs: AirExpr::Value(x),
        },
    ];
    assert_eq!(builder.recorded(), &expected);
}

#[test]
fn field_addition_is_not_a_projection() {
    let s = felt(13).add(&felt(8));
    assert_eq!(s, felt(21));
    assert_ne!(s, felt(13));
    assert_ne!(s, felt(8));
    assert_eq!(felt(0).add(&felt(0)), felt(0));
}
