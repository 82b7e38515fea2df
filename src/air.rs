//! The constraint system (AIR) of the recurrence: two degree-1 transition
//! constraints between consecutive rows and three boundary assertions.

use crate::field::{lemma_small_reduce, reduce, Felt, MODULUS};
use crate::trace::{fib_term, fib_trace, is_pow2, trace_row, valid_sequence_length};
use vstd::prelude::*;

verus! {

/// The number of registers of the trace.
pub const TRACE_WIDTH: usize = 2;

/// The residuals of the two transition constraints between row `current`
/// and row `next`:
/// `next.0 - (current.0 + current.1)` and `next.1 - (current.1 + next.0)`.
pub open spec fn transition_residuals(current: (int, int), next: (int, int)) -> (int, int) {
    (reduce(next.0 - (current.0 + current.1)), reduce(next.1 - (current.1 + next.0)))
}

/// The boundary assertions `(register, step, value)` for a trace of
/// `trace_length` rows whose result is `result`.
pub open spec fn boundary_assertions(trace_length: nat, result: int) -> Seq<(nat, nat, int)> {
    seq![(0nat, 0nat, 1int), (1nat, 0nat, 1int), (1nat, (trace_length - 1) as nat, result)]
}

/// Every assertion names a cell of `rows` that holds the asserted value.
pub open spec fn assertions_hold(rows: Seq<(int, int)>, assertions: Seq<(nat, nat, int)>) -> bool {
    forall|k: int|
        0 <= k < assertions.len() ==> {
            let a = #[trigger] assertions[k];
            &&& a.0 < 2
            &&& a.1 < rows.len()
            &&& (if a.0 == 0 {
                rows[a.1 as int].0
            } else {
                rows[a.1 as int].1
            }) == a.2
        }
}

/// A value asserted at a fixed cell of the trace.
#[derive(Clone, Copy, Debug, PartialEq, Eq, Structural)]
pub struct BoundaryAssertion {
    pub register: usize,
    pub step: usize,
    pub value: Felt,
}

impl View for BoundaryAssertion {
    type V = (nat, nat, int);

    open spec fn view(&self) -> (nat, nat, int) {
        (self.register as nat, self.step as nat, self.value@)
    }
}

/// The constraint system for a trace of a given length and a claimed result.
pub struct FibAir {
    trace_length: usize,
    result: Felt,
}

impl View for FibAir {
    /// `(trace length, claimed result)`.
    type V = (nat, int);

    closed spec fn view(&self) -> (nat, int) {
        (self.trace_length as nat, self.result@)
    }
}

impl FibAir {
    #[verifier::type_invariant]
    spec fn has_rows(self) -> bool {
        self.trace_length >= 1
    }

    /// The constraint system for a trace of `trace_width` registers and
    /// `trace_length` rows whose register 1 ends with `pub_inputs`.
    pub fn new(trace_width: usize, trace_length: usize, pub_inputs: Felt) -> (r: FibAir)
        requires
            trace_width == TRACE_WIDTH,
            trace_length >= 1,
        ensures
            r@ == (trace_length as nat, pub_inputs@),
    {
        FibAir { trace_length, result: pub_inputs }
    }

    /// The number of rows of the trace.
    pub fn trace_length(&self) -> (r: usize)
        ensures
            r == self@.0,
    {
        self.trace_length
    }

    /// The claimed result.
    pub fn result(&self) -> (r: Felt)
        ensures
            r@ == self@.1,
    {
        self.result
    }

    /// The degree of each transition constraint, in order: both are affine.
    pub fn transition_degrees(&self) -> (r: Vec<usize>)
        ensures
            r@ == seq![1usize, 1usize],
    {
        let r: Vec<usize> = vec![1, 1];
        assert(r@ =~= seq![1usize, 1usize]);
        r
    }

    /// The two transition residuals between consecutive rows; a step is
    /// valid exactly when both are zero.
    pub fn evaluate_transition(&self, current: &[Felt], next: &[Felt]) -> (r: (Felt, Felt))
        requires
            current@.len() == TRACE_WIDTH,
            next@.len() == TRACE_WIDTH,
        ensures
            (r.0@, r.1@) == transition_residuals(
                (current@[0]@, current@[1]@),
                (next@[0]@, next@[1]@),
            ),
    {
        let s0 = current[0].plus(&current[1]);
        let r0 = next[0].minus(&s0);
        let s1 = current[1].plus(&next[0]);
        let r1 = next[1].minus(&s1);
        proof {
            lemma_reduce_sub(next@[0]@, current@[0]@ + current@[1]@);
            lemma_reduce_sub(next@[1]@, current@[1]@ + next@[0]@);
        }
        (r0, r1)
    }

    /// The boundary assertions, in a fixed order: register 0 and register 1
    /// start at one, and register 1 ends at the claimed result.
    pub fn get_assertions(&self) -> (r: Vec<BoundaryAssertion>)
        ensures
            r@.map_values(|a: BoundaryAssertion| a@) == boundary_assertions(self@.0, self@.1),
    {
        proof {
            use_type_invariant(self);
        }
        let last_step = self.trace_length - 1;
        let r = vec![
            BoundaryAssertion { register: 0, step: 0, value: Felt::one() },
            BoundaryAssertion { register: 1, step: 0, value: Felt::one() },
            BoundaryAssertion { register: 1, step: last_step, value: self.result },
        ];
        assert(r@.map_values(|a: BoundaryAssertion| a@) =~= boundary_assertions(self@.0, self@.1));
        r
    }
}

/// Subtracting an unreduced value or its reduction gives the same element.
proof fn lemma_reduce_sub(x: int, y: int)
    ensures
        reduce(x - reduce(y)) == reduce(x - y),
{
    vstd::arithmetic::div_mod::lemma_sub_mod_noop_right(x, y, MODULUS as int);
}

/// A value minus its own reduction is zero in the field.
proof fn lemma_reduce_cancel(x: int)
    ensures
        reduce(reduce(x) - x) == 0,
{
    let m = MODULUS as int;
    vstd::arithmetic::div_mod::lemma_fundamental_div_mod(x, m);
    assert(reduce(x) - x == (-(x / m)) * m) by (nonlinear_arith)
        requires
            x == m * (x / m) + x % m,
            reduce(x) == x % m,
    ;
    vstd::arithmetic::div_mod::lemma_mod_multiples_basic(-(x / m), m);
}

/// The last row's register 1 of the trace for `n` terms is term `n`, the
/// value the direct recurrence computes.
pub proof fn lemma_reference_matches_trace(n: nat)
    requires
        valid_sequence_length(n),
    ensures
        n / 2 >= 1,
        fib_trace(n / 2)[n / 2 - 1].1 == fib_term(n),
{
    assert(is_pow2(n));
    assert(n % 2 == 0);
    assert(2 * ((n / 2 - 1) as nat) + 2 == n);
}

/// Both transition residuals vanish on every pair of consecutive rows of a
/// built trace.
pub proof fn lemma_trace_transitions_vanish(n: nat, step: nat)
    requires
        valid_sequence_length(n),
        step + 1 < n / 2,
    ensures
        transition_residuals(fib_trace(n / 2)[step as int], fib_trace(n / 2)[step + 1int]) == (0int, 0int),
{
    let a = fib_term(2 * step + 1);
    let b = fib_term(2 * step + 2);
    assert(fib_term(2 * (step + 1) + 1) == reduce(b + a));
    assert(fib_term(2 * (step + 1) + 2) == reduce(reduce(b + a) + b));
    lemma_reduce_cancel(a + b);
    lemma_reduce_cancel(b + reduce(b + a));
}

/// A built trace meets the boundary assertions made for it with the
/// directly computed result: both registers start at one, and register 1
/// ends at term `n`.
pub proof fn lemma_trace_meets_assertions(n: nat)
    requires
        valid_sequence_length(n),
    ensures
        assertions_hold(fib_trace(n / 2), boundary_assertions(n / 2, fib_term(n))),
{
    lemma_reference_matches_trace(n);
    lemma_small_reduce(1);
    assert(fib_term(0) == 0 && fib_term(1) == 1);
    assert(fib_term(2) == 1);
    assert(trace_row(0) == (1int, 1int));
}

} // verus!
