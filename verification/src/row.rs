//! The row codec: a trace row is exactly two named field elements, and its
//! flat form is the two-element sequence `[left, right]`. Reinterpretation in
//! either direction is index arithmetic over that fixed layout and is only
//! defined for sequences of length two.

use vstd::prelude::*;
use vstd::slice::slice_index_get;

verus! {

/// One structured row of the trace: the two values the recurrence carries.
#[derive(Clone, Copy, PartialEq, Eq, Debug)]
pub struct FibonacciRow<F> {
    pub left: F,
    pub right: F,
}

impl<F> FibonacciRow<F> {
    pub fn new(left: F, right: F) -> (r: FibonacciRow<F>)
        ensures
            r.left == left,
            r.right == right,
    {
        FibonacciRow { left, right }
    }
}

impl<F: Copy> FibonacciRow<F> {
    /// Reads a structured row out of its flat form: a sequence of exactly two
    /// field elements, `left` first.
    pub fn from_flat(flat: &[F]) -> (r: FibonacciRow<F>)
        requires
            flat@.len() == 2,
        ensures
            r.left == flat@[0],
            r.right == flat@[1],
    {
        FibonacciRow { left: *slice_index_get(flat, 0), right: *slice_index_get(flat, 1) }
    }

    /// The flat form of a structured row.
    pub fn to_flat(&self) -> (r: Vec<F>)
        ensures
            r@.len() == 2,
            r@[0] == self.left,
            r@[1] == self.right,
    {
        let mut flat: Vec<F> = Vec::new();
        flat.push(self.left);
        flat.push(self.right);
        flat
    }
}

} // verus!
