//! The execution trace of the two-register recurrence and the prover side
//! that builds it.
//!
//! Row `i` of the trace holds the terms `2i + 1` and `2i + 2` of the sequence
//! `1, 1, 2, 3, 5, ...` taken in the field, so each row advances the
//! recurrence by two terms.

use crate::field::{lemma_small_reduce, reduce, Felt};
use vstd::prelude::*;
use winterfell::ProofOptions;

verus! {

/// winterfell's `ProofOptions`, carried through unread: the proving engine's
/// configuration, which only the engine validates.
#[verifier::external_type_specification]
#[verifier::external_body]
pub struct ExProofOptions(ProofOptions);

/// Term `n` of the Fibonacci sequence in the field (`fib_term(1) == fib_term(2) == 1`).
pub open spec fn fib_term(n: nat) -> int
    decreases n,
{
    if n == 0 {
        0
    } else if n == 1 {
        1
    } else {
        reduce(fib_term((n - 1) as nat) + fib_term((n - 2) as nat))
    }
}

/// Row `i` of the trace: `(fib_term(2i + 1), fib_term(2i + 2))`.
pub open spec fn trace_row(i: nat) -> (int, int) {
    (fib_term(2 * i + 1), fib_term(2 * i + 2))
}

/// The trace with `rows` rows.
pub open spec fn fib_trace(rows: nat) -> Seq<(int, int)> {
    Seq::new(rows, |i: int| trace_row(i as nat))
}

/// `n` is a power of two (`1, 2, 4, ...`).
pub open spec fn is_pow2(n: nat) -> bool
    decreases n,
{
    if n <= 1 {
        n == 1
    } else {
        n % 2 == 0 && is_pow2(n / 2)
    }
}

/// The sequence lengths for which a trace can be built.
pub open spec fn valid_sequence_length(n: nat) -> bool {
    n >= 2 && is_pow2(n)
}

/// Whether `n` is a power of two no smaller than 2.
pub fn is_valid_sequence_length(n: usize) -> (r: bool)
    ensures
        r == valid_sequence_length(n as nat),
{
    let mut m: usize = n;
    while m > 1 && m % 2 == 0
        invariant
            is_pow2(m as nat) == is_pow2(n as nat),
        decreases m,
    {
        m = m / 2;
    }
    n >= 2 && m == 1
}

/// Computes term `n` of the sequence directly from the recurrence.
pub fn compute_fib_term(n: usize) -> (r: Felt)
    requires
        n >= 1,
    ensures
        r@ == fib_term(n as nat),
{
    let mut t0 = Felt::one();
    let mut t1 = Felt::one();
    let mut i: usize = 0;
    proof {
        lemma_small_reduce(1);
        assert(fib_term(0) == 0 && fib_term(1) == 1);
        assert(fib_term(2) == 1);
    }
    while i < n - 1
        invariant
            i <= n - 1,
            t0@ == fib_term((i + 2) as nat),
            t1@ == fib_term((i + 1) as nat),
        decreases n - 1 - i,
    {
        t1 = t0.plus(&t1);
        std::mem::swap(&mut t0, &mut t1);
        i = i + 1;
    }
    t1
}

/// A trace of two registers; row `i` holds `(register0[i], register1[i])`.
pub struct FibTrace {
    register0: Vec<Felt>,
    register1: Vec<Felt>,
}

impl View for FibTrace {
    type V = Seq<(int, int)>;

    closed spec fn view(&self) -> Seq<(int, int)> {
        Seq::new(self.register0@.len(), |i: int| (self.register0@[i]@, self.register1@[i]@))
    }
}

impl FibTrace {
    #[verifier::type_invariant]
    spec fn registers_aligned(self) -> bool {
        self.register0@.len() == self.register1@.len()
    }

    /// The number of registers.
    pub fn width(&self) -> (r: usize)
        ensures
            r == 2,
    {
        2
    }

    /// The number of rows.
    pub fn length(&self) -> (r: usize)
        ensures
            r == self@.len(),
    {
        self.register0.len()
    }

    /// The value of `register` at `step`.
    pub fn get(&self, register: usize, step: usize) -> (r: Felt)
        requires
            register < 2,
            step < self@.len(),
        ensures
            r@ == (if register == 0 {
                self@[step as int].0
            } else {
                self@[step as int].1
            }),
    {
        proof {
            use_type_invariant(self);
        }
        if register == 0 {
            self.register0[step]
        } else {
            self.register1[step]
        }
    }
}

/// The prover side: proof options, and the trace and public input it hands
/// to the proving engine.
pub struct FibProver {
    options: ProofOptions,
}

impl FibProver {
    pub fn new(options: ProofOptions) -> (r: FibProver)
        ensures
            r.options() == options,
    {
        FibProver { options }
    }

    pub closed spec fn options(&self) -> ProofOptions {
        self.options
    }

    /// The options the proving engine is configured with.
    pub fn proof_options(&self) -> (r: &ProofOptions)
        ensures
            *r == self.options(),
    {
        &self.options
    }

    /// Builds the trace of a sequence of `sequence_length` terms: one row for
    /// each two terms, starting from `(1, 1)`.
    pub fn build_trace(&self, sequence_length: usize) -> (r: FibTrace)
        requires
            valid_sequence_length(sequence_length as nat),
        ensures
            r@ == fib_trace((sequence_length / 2) as nat),
    {
        let rows: usize = sequence_length / 2;
        let mut register0: Vec<Felt> = Vec::new();
        let mut register1: Vec<Felt> = Vec::new();
        let mut s0 = Felt::one();
        let mut s1 = Felt::one();
        register0.push(s0);
        register1.push(s1);
        proof {
            lemma_small_reduce(1);
            assert(fib_term(0) == 0 && fib_term(1) == 1);
            assert(fib_term(2) == 1);
        }
        let mut i: usize = 1;
        while i < rows
            invariant
                1 <= i <= rows,
                register0@.len() == i,
                register1@.len() == i,
                forall|j: int|
                    0 <= j < i ==> #[trigger] register0@[j]@ == trace_row(j as nat).0
                        && register1@[j]@ == trace_row(j as nat).1,
                s0@ == trace_row((i - 1) as nat).0,
                s1@ == trace_row((i - 1) as nat).1,
            decreases rows - i,
        {
            let next0 = s0.plus(&s1);
            let next1 = s1.plus(&next0);
            assert(fib_term((2 * i + 1) as nat) == reduce(
                fib_term((2 * i) as nat) + fib_term((2 * i - 1) as nat),
            ));
            assert(fib_term((2 * i + 2) as nat) == reduce(
                fib_term((2 * i + 1) as nat) + fib_term((2 * i) as nat),
            ));
            s0 = next0;
            s1 = next1;
            register0.push(s0);
            register1.push(s1);
            i = i + 1;
        }
        let r = FibTrace { register0, register1 };
        assert(r@ =~= fib_trace(rows as nat));
        r
    }

    /// The public input of a trace: the value of register 1 at its last step.
    pub fn get_pub_inputs(&self, trace: &FibTrace) -> (r: Felt)
        requires
            trace@.len() >= 1,
        ensures
            r@ == trace@.last().1,
    {
        let last_step = trace.length() - 1;
        trace.get(1, last_step)
    }
}

} // verus!
