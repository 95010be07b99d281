//! The execution trace and its generator.
//!
//! A trace is a row-major buffer of field elements, two per row: row `i`
//! occupies slots `2*i` and `2*i + 1`. Its height must be a power of two.
//! `generate_trace_rows` fills a trace with the linear recurrence
//! `(left, right) -> (right, left + right)` starting from two seeds.

use vstd::prelude::*;
use crate::field::{canonical, field_order, val, Felt};
use crate::row::FibonacciRow;

verus! {

/// Whether `n` is a power of two (so at least one).
pub open spec fn is_pow2(n: int) -> bool
    decreases n,
{
    if n <= 0 {
        false
    } else if n == 1 {
        true
    } else {
        n % 2 == 0 && is_pow2(n / 2)
    }
}

/// Decides `is_pow2`, so a caller can test the generator's precondition.
pub fn is_power_of_two(n: usize) -> (b: bool)
    ensures
        b == is_pow2(n as int),
    decreases n,
{
    if n == 0 {
        false
    } else if n == 1 {
        true
    } else if n % 2 == 1 {
        false
    } else {
        is_power_of_two(n / 2)
    }
}

/// The three public values a trace is checked against: the two seeds and the
/// expected final `right` value.
#[derive(Clone, Copy, PartialEq, Eq, Structural, Debug)]
pub struct PublicInputs {
    pub a: Felt,
    pub b: Felt,
    pub x: Felt,
}

impl PublicInputs {
    pub open spec fn wf(&self) -> bool {
        canonical(self.a) && canonical(self.b) && canonical(self.x)
    }

    pub fn new(a: Felt, b: Felt, x: Felt) -> (r: PublicInputs)
        ensures
            r.a == a,
            r.b == b,
            r.x == x,
    {
        PublicInputs { a, b, x }
    }
}

/// A full execution trace: `height` rows of two field elements each, stored
/// row-major in one flat buffer.
pub struct ExecutionTrace {
    pub values: Vec<Felt>,
    pub height: usize,
}

impl ExecutionTrace {
    /// The trace's invariant: the buffer holds exactly two slots per row, the
    /// height is a power of two, and every element is canonical.
    pub open spec fn wf(&self) -> bool {
        &&& self.values@.len() == 2 * self.height
        &&& is_pow2(self.height as int)
        &&& forall|k: int| 0 <= k < self.values@.len() ==> canonical(#[trigger] self.values@[k])
    }

    pub open spec fn height_spec(&self) -> int {
        self.height as int
    }

    /// Row `i` as a structured row: the codec's layout, slots `2*i` and
    /// `2*i + 1`.
    pub open spec fn row_spec(&self, i: int) -> FibonacciRow<Felt> {
        FibonacciRow { left: self.values@[2 * i], right: self.values@[2 * i + 1] }
    }

    pub fn height(&self) -> (r: usize)
        ensures
            r == self.height_spec(),
    {
        self.height
    }

    /// Reads row `i` through the row codec, without copying the buffer.
    pub fn row(&self, i: usize) -> (r: FibonacciRow<Felt>)
        requires
            self.wf(),
            i < self.height_spec(),
        ensures
            r == self.row_spec(i as int),
    {
        let len: usize = self.values.len();
        assert(2 * i + 2 <= len);
        let flat = vstd::slice::slice_subrange(self.values.as_slice(), 2 * i, 2 * i + 2);
        FibonacciRow::<Felt>::from_flat(flat)
    }

    /// Replaces row `i`'s `left` value, leaving every other slot unchanged.
    pub fn set_left(&mut self, i: usize, v: Felt)
        requires
            old(self).wf(),
            i < old(self).height_spec(),
            canonical(v),
        ensures
            final(self).wf(),
            final(self).height_spec() == old(self).height_spec(),
            final(self).values_spec() == old(self).values_spec().update(2 * i as int, v),
    {
        let len: usize = self.values.len();
        assert(2 * i < len);
        self.values[2 * i] = v;
    }

    /// Replaces row `i`'s `right` value, leaving every other slot unchanged.
    pub fn set_right(&mut self, i: usize, v: Felt)
        requires
            old(self).wf(),
            i < old(self).height_spec(),
            canonical(v),
        ensures
            final(self).wf(),
            final(self).height_spec() == old(self).height_spec(),
            final(self).values_spec() == old(self).values_spec().update(2 * i as int + 1, v),
    {
        let len: usize = self.values.len();
        assert(2 * i + 1 < len);
        self.values[2 * i + 1] = v;
    }

    pub open spec fn values_spec(&self) -> Seq<Felt> {
        self.values@
    }
}

/// Transition constraint between rows `i` and `i + 1`, first half: the next
/// row's `left` is this row's `right`.
pub open spec fn shift_ok(t: &ExecutionTrace, i: int) -> bool {
    t.row_spec(i + 1).left == t.row_spec(i).right
}

/// Transition constraint between rows `i` and `i + 1`, second half: the next
/// row's `right` is the field sum of this row's two values.
pub open spec fn sum_ok(t: &ExecutionTrace, i: int) -> bool {
    val(t.row_spec(i + 1).right) == (val(t.row_spec(i).left) + val(t.row_spec(i).right))
        % field_order()
}

/// Every adjacent pair of rows satisfies both transition constraints.
pub open spec fn follows_recurrence(t: &ExecutionTrace) -> bool {
    forall|i: int| 0 <= i < t.height_spec() - 1 ==> #[trigger] shift_ok(t, i) && sum_ok(t, i)
}

/// The two transition constraints at one index, from `follows_recurrence`.
pub proof fn lemma_recurrence_at(t: &ExecutionTrace, i: int)
    requires
        follows_recurrence(t),
        0 <= i < t.height_spec() - 1,
    ensures
        shift_ok(t, i),
        sum_ok(t, i),
{
    assert(shift_ok(t, i) && sum_ok(t, i));
}

/// Generates the full trace of the recurrence: row 0 is `(a, b)`, and each
/// later row is built from its predecessor by the shift and the field sum.
pub fn generate_trace_rows(a: u64, b: u64, n: usize) -> (r: ExecutionTrace)
    requires
        is_pow2(n as int),
        n <= usize::MAX / 2,
    ensures
        r.wf(),
        r.height_spec() == n,
        val(r.row_spec(0).left) == a,
        val(r.row_spec(0).right) == b,
        follows_recurrence(&r),
{
    let mut values: Vec<Felt> = Vec::new();
    values.push(Felt::from_u64(a));
    values.push(Felt::from_u64(b));
    let mut i: usize = 1;
    while i < n
        invariant
            1 <= i <= n,
            n <= usize::MAX / 2,
            values@.len() == 2 * i,
            forall|k: int| 0 <= k < values@.len() ==> canonical(#[trigger] values@[k]),
            val(values@[0]) == a,
            val(values@[1]) == b,
            forall|j: int| 0 <= j < i - 1 ==>
                #[trigger] values@[2 * j + 2] == values@[2 * j + 1]
                && val(values@[2 * j + 3]) == (val(values@[2 * j]) + val(values@[2 * j + 1]))
                    % field_order(),
        decreases n - i,
    {
        let ghost pre = values@;
        let l = values[2 * i - 1];
        let s = values[2 * i - 2].add(&values[2 * i - 1]);
        values.push(l);
        values.push(s);
        proof {
            let gi = i as int;
            assert(values@ == pre.push(l).push(s));
            assert(values@[2 * gi] == l);
            assert(values@[2 * gi + 1] == s);
            assert(forall|k: int| 0 <= k < pre.len() ==> values@[k] == pre[k]);
            assert forall|j: int| 0 <= j < gi implies #[trigger] values@[2 * j + 2] == values@[2 * j
                + 1] && val(values@[2 * j + 3]) == (val(values@[2 * j]) + val(values@[2 * j + 1]))
                % field_order() by {
                if j == gi - 1 {
                    assert(values@[2 * j + 2] == l);
                    assert(values@[2 * j + 3] == s);
                    assert(values@[2 * j + 1] == pre[2 * gi - 1]);
                    assert(values@[2 * j] == pre[2 * gi - 2]);
                } else {
                    assert(0 <= j < i - 1);
                    assert(pre[2 * j + 2] == pre[2 * j + 1]);
                    assert(val(pre[2 * j + 3]) == (val(pre[2 * j]) + val(pre[2 * j + 1]))
                        % field_order());
                }
            }
        }
        i = i + 1;
    }
    let t = ExecutionTrace { values, height: n };
    assert forall|j: int| 0 <= j < t.height_spec() - 1 implies #[trigger] shift_ok(&t, j)
        && sum_ok(&t, j) by {
        assert(t.values_spec()[2 * j + 2] == t.values_spec()[2 * j + 1]);
    }
    t
}

} // verus!
