//! An algebraic constraint system for a Fibonacci-style linear recurrence
//! over the scalar field of BN254: a generator that fills an execution trace
//! with the recurrence, and a constraint evaluator that states its boundary
//! and transition constraints once, against an abstract capability interface,
//! so the same definition checks concrete witness traces and extracts
//! symbolic constraint sets.

pub mod air;
pub mod check;
pub mod field;
pub mod row;
pub mod symbolic;
pub mod trace;
pub mod witness;

pub use air::{AirBuilder, AirExpr, FibonacciAir, Scope, ScopedAssertion};
pub use check::{check_trace, ConstraintFailure, ConstraintKind};
pub use field::Felt;
pub use row::FibonacciRow;
pub use symbolic::{SymVar, SymbolicAirBuilder};
pub use trace::{generate_trace_rows, is_power_of_two, ExecutionTrace, PublicInputs};
pub use witness::WitnessBuilder;
