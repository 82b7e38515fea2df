use fib_air::air::{BoundaryAssertion, FibAir, TRACE_WIDTH};
use fib_air::field::{Felt, MODULUS};
use fib_air::trace::{compute_fib_term, is_valid_sequence_length, FibProver, FibTrace};
use winterfell::math::fields::f128::BaseElement;
use winterfell::math::{FieldElement, StarkField};
use winterfell::{
    Air, AirContext, Assertion, EvaluationFrame, FieldExtension, HashFunction, ProofOptions,
    Prover, StarkProof, Trace, TraceInfo, TraceTable, TransitionConstraintDegree,
};

fn options() -> ProofOptions {
    ProofOptions::new(16, 4, 0, HashFunction::Blake3_256, FieldExtension::None, 4, 32)
}

fn felt(v: u128) -> Felt {
    Felt::new(v)
}

fn base(x: Felt) -> BaseElement {
    BaseElement::new(x.as_int())
}

struct EngineAir {
    context: AirContext<BaseElement>,
    inner: FibAir,
}

impl Air for EngineAir {
    type BaseField = BaseElement;
    type PublicInputs = BaseElement;

    fn new(trace_info: TraceInfo, pub_inputs: BaseElement, options: ProofOptions) -> Self {
        assert_eq!(TRACE_WIDTH, trace_info.width());
        let inner = FibAir::new(trace_info.width(), trace_info.length(), felt(pub_inputs.as_int()));
        let degrees = inner
            .transition_degrees()
            .into_iter()
            .map(TransitionConstraintDegree::new)
            .collect();
        let num_assertions = inner.get_assertions().len();
        EngineAir { context: AirContext::new(trace_info, degrees, num_assertions, options), inner }
    }

    fn context(&self) -> &AirContext<BaseElement> {
        &self.context
    }

    fn evaluate_transition<E: FieldElement<BaseField = BaseElement>>(
        &self,
        frame: &EvaluationFrame<E>,
        _periodic_values: &[E],
        result: &mut [E],
    ) {
        let current = frame.current();
        let next = frame.next();
        result[0] = next[0] - (current[0] + current[1]);
        result[1] = next[1] - (current[1] + next[0]);
    }

    fn get_assertions(&self) -> Vec<Assertion<BaseElement>> {
        self.inner
            .get_assertions()
            .into_iter()
            .map(|a| Assertion::single(a.register, a.step, base(a.value)))
            .collect()
    }
}

struct EngineProver(FibProver);

impl Prover for EngineProver {
    type BaseField = BaseElement;
    type Air = EngineAir;
    type Trace = TraceTable<BaseElement>;

    fn get_pub_inputs(&self, trace: &TraceTable<BaseElement>) -> BaseElement {
        trace.get(1, trace.length() - 1)
    }

    fn options(&self) -> &ProofOptions {
        self.0.proof_options()
    }
}

fn to_table(trace: &FibTrace) -> TraceTable<BaseElement> {
    let columns = (0..trace.width())
        .map(|r| (0..trace.length()).map(|s| base(trace.get(r, s))).collect())
        .collect();
    TraceTable::init(columns)
}

fn prove(n: usize) -> StarkProof {
    let prover = EngineProver(FibProver::new(options()));
    let trace = prover.0.build_trace(n);
    prover.prove(to_table(&trace)).unwrap()
}

#[test]
fn trace_of_eight_terms() {
    let prover = FibProver::new(options());
    let trace = prover.build_trace(8);
    assert_eq!(trace.width(), 2);
    assert_eq!(trace.length(), 4);
    let expected = [(1u128, 1u128), (2, 3), (5, 8), (13, 21)];
    for (step, (a, b)) in expected.iter().enumerate() {
        assert_eq!(trace.get(0, step).as_int(), *a);
        assert_eq!(trace.get(1, step).as_int(), *b);
    }
    assert_eq!(compute_fib_term(8).as_int(), 21);
    assert_eq!(prover.get_pub_inputs(&trace).as_int(), 21);
}

#[test]
fn sequence_length_must_be_power_of_two() {
    assert!(!is_valid_sequence_length(100));
    assert!(!is_valid_sequence_length(0));
    assert!(!is_valid_sequence_length(1));
    assert!(!is_valid_sequence_length(6));
    assert!(is_valid_sequence_length(2));
    assert!(is_valid_sequence_length(8));
    assert!(is_valid_sequence_length(128));
    assert!(is_valid_sequence_length(1 << 40));
}

#[test]
fn reference_matches_trace() {
    let prover = FibProver::new(options());
    for log_n in 1..10 {
        let n = 1usize << log_n;
        let trace = prover.build_trace(n);
        assert_eq!(trace.length(), n / 2);
        assert_eq!(compute_fib_term(n), trace.get(1, n / 2 - 1));
    }
}

#[test]
fn reference_terms() {
    assert_eq!(compute_fib_term(1).as_int(), 1);
    assert_eq!(compute_fib_term(2).as_int(), 1);
    assert_eq!(compute_fib_term(3).as_int(), 2);
    assert_eq!(compute_fib_term(16).as_int(), 987);
    assert_eq!(compute_fib_term(64).as_int(), 10610209857723);
}

#[test]
fn reference_wraps_around_the_modulus() {
    // term 187 is the first that exceeds the field modulus
    let f186: u128 = 332825110087067562321196029789634457848;
    let f185: u128 = 205697230343233228174223751303346572685;
    assert_eq!(compute_fib_term(186).as_int(), f186);
    assert_eq!(compute_fib_term(185).as_int(), f185);
    let wrapped = f186 - (MODULUS - f185);
    assert_eq!(compute_fib_term(187).as_int(), wrapped);
}

#[test]
fn transitions_vanish_on_built_trace() {
    let prover = FibProver::new(options());
    let air = FibAir::new(2, 256, compute_fib_term(512));
    let trace = prover.build_trace(512);
    for step in 0..trace.length() - 1 {
        let current = [trace.get(0, step), trace.get(1, step)];
        let next = [trace.get(0, step + 1), trace.get(1, step + 1)];
        let (r0, r1) = air.evaluate_transition(&current, &next);
        assert_eq!(r0, Felt::zero());
        assert_eq!(r1, Felt::zero());
    }
}

#[test]
fn transition_residuals_on_invalid_rows() {
    let air = FibAir::new(2, 4, felt(21));
    let (r0, r1) = air.evaluate_transition(&[felt(1), felt(1)], &[felt(2), felt(4)]);
    assert_eq!((r0.as_int(), r1.as_int()), (0, 1));
    let (r0, r1) = air.evaluate_transition(&[felt(1), felt(1)], &[felt(0), felt(0)]);
    assert_eq!((r0.as_int(), r1.as_int()), (MODULUS - 2, MODULUS - 1));
    let (r0, r1) = air.evaluate_transition(&[felt(5), felt(8)], &[felt(13), felt(21)]);
    assert_eq!((r0.as_int(), r1.as_int()), (0, 0));
}

#[test]
fn declared_degrees_are_affine() {
    let air = FibAir::new(2, 8, felt(987));
    assert_eq!(air.transition_degrees(), vec![1, 1]);
    assert_eq!(air.trace_length(), 8);
    assert_eq!(air.result().as_int(), 987);
}

#[test]
fn assertions_hold_on_built_trace() {
    let n = 128;
    let prover = FibProver::new(options());
    let trace = prover.build_trace(n);
    let air = FibAir::new(2, trace.length(), compute_fib_term(n));
    let assertions = air.get_assertions();
    assert_eq!(
        assertions,
        vec![
            BoundaryAssertion { register: 0, step: 0, value: Felt::one() },
            BoundaryAssertion { register: 1, step: 0, value: Felt::one() },
            BoundaryAssertion { register: 1, step: 63, value: compute_fib_term(n) },
        ]
    );
    for a in assertions {
        assert_eq!(trace.get(a.register, a.step), a.value);
    }
}

#[test]
fn field_arithmetic() {
    assert_eq!(Felt::new(MODULUS).as_int(), 0);
    assert_eq!(Felt::new(MODULUS + 5).as_int(), 5);
    assert_eq!(Felt::new(7).as_int(), 7);
    assert_eq!(felt(MODULUS - 1).plus(&felt(2)).as_int(), 1);
    assert_eq!(felt(3).plus(&felt(4)).as_int(), 7);
    assert_eq!(Felt::zero().minus(&Felt::one()).as_int(), MODULUS - 1);
    assert_eq!(felt(10).minus(&felt(4)).as_int(), 6);
}

#[test]
fn proof_round_trips_through_bytes() {
    let proof = prove(16);
    let bytes = proof.to_bytes();
    let parsed = StarkProof::from_bytes(&bytes).unwrap();
    assert_eq!(proof, parsed);
}

#[test]
fn proof_verifies_only_against_its_result() {
    let proof = prove(16);
    let result = compute_fib_term(16);
    assert_eq!(result.as_int(), 987);
    assert!(winterfell::verify::<EngineAir>(proof.clone(), base(result)).is_ok());
    assert!(winterfell::verify::<EngineAir>(proof.clone(), BaseElement::new(986)).is_err());
    assert!(winterfell::verify::<EngineAir>(proof, BaseElement::ZERO).is_err());
}
