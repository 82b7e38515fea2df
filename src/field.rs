//! Elements of the 128-bit STARK field with modulus `2^128 - 45 * 2^40 + 1`.
//!
//! Values are kept in canonical form (`0 <= value < MODULUS`); the field
//! arithmetic itself is performed by winterfell's `f128::BaseElement`.

use vstd::prelude::*;
use winterfell::math::fields::f128::BaseElement;
use winterfell::math::StarkField;

verus! {

/// The field modulus, `2^128 - 45 * 2^40 + 1`.
pub const MODULUS: u128 = 340282366920938463463374557953744961537;

/// Reduction of an integer into the field: the canonical representative.
pub open spec fn reduce(x: int) -> int {
    x % (MODULUS as int)
}

/// A reduced integer is canonical, and reducing it again changes nothing.
pub proof fn lemma_reduce_canonical(x: int)
    ensures
        0 <= reduce(x) < MODULUS,
        reduce(reduce(x)) == reduce(x),
{
    lemma_small_reduce(reduce(x));
}

/// A canonical integer reduces to itself.
pub proof fn lemma_small_reduce(x: int)
    requires
        0 <= x < MODULUS,
    ensures
        reduce(x) == x,
{
    vstd::arithmetic::div_mod::lemma_small_mod(x as nat, MODULUS as nat);
}

/// Relies on `BaseElement::new` followed by `as_int`: a `u128` is reduced
/// modulo the field modulus (one subtraction suffices below `2 * MODULUS`).
#[verifier::external_body]
fn base_new(value: u128) -> (r: u128)
    ensures
        r as int == reduce(value as int),
{
    BaseElement::new(value).as_int()
}

/// Relies on `BaseElement + BaseElement` (f128's `add`) on canonical values.
#[verifier::external_body]
fn base_add(a: u128, b: u128) -> (r: u128)
    requires
        a < MODULUS,
        b < MODULUS,
    ensures
        r as int == reduce(a + b),
{
    (BaseElement::new(a) + BaseElement::new(b)).as_int()
}

/// Relies on `BaseElement - BaseElement` (f128's `sub`) on canonical values.
#[verifier::external_body]
fn base_sub(a: u128, b: u128) -> (r: u128)
    requires
        a < MODULUS,
        b < MODULUS,
    ensures
        r as int == reduce(a - b),
{
    (BaseElement::new(a) - BaseElement::new(b)).as_int()
}

/// A field element in canonical form.
#[derive(Clone, Copy, Debug, PartialEq, Eq, Structural)]
pub struct Felt {
    value: u128,
}

impl View for Felt {
    type V = int;

    closed spec fn view(&self) -> int {
        reduce(self.value as int)
    }
}

impl Felt {
    #[verifier::type_invariant]
    spec fn canonical(self) -> bool {
        self.value < MODULUS
    }

    /// The element that `value` reduces to.
    pub fn new(value: u128) -> (r: Felt)
        ensures
            r@ == reduce(value as int),
    {
        let v = base_new(value);
        proof {
            lemma_reduce_canonical(value as int);
            lemma_small_reduce(v as int);
        }
        Felt { value: v }
    }

    /// The additive identity.
    pub fn zero() -> (r: Felt)
        ensures
            r@ == 0,
    {
        proof {
            lemma_small_reduce(0);
        }
        Felt { value: 0 }
    }

    /// The multiplicative identity.
    pub fn one() -> (r: Felt)
        ensures
            r@ == 1,
    {
        proof {
            lemma_small_reduce(1);
        }
        Felt { value: 1 }
    }

    /// The canonical integer value of this element.
    pub fn as_int(&self) -> (r: u128)
        ensures
            r as int == self@,
    {
        proof {
            use_type_invariant(self);
            lemma_small_reduce(self.value as int);
        }
        self.value
    }

    /// Field addition.
    pub fn plus(&self, other: &Felt) -> (r: Felt)
        ensures
            r@ == reduce(self@ + other@),
    {
        proof {
            use_type_invariant(self);
            use_type_invariant(other);
            lemma_small_reduce(self.value as int);
            lemma_small_reduce(other.value as int);
        }
        let v = base_add(self.value, other.value);
        proof {
            lemma_small_reduce(v as int);
        }
        Felt { value: v }
    }

    /// Field subtraction.
    pub fn minus(&self, other: &Felt) -> (r: Felt)
        ensures
            r@ == reduce(self@ - other@),
    {
        proof {
            use_type_invariant(self);
            use_type_invariant(other);
            lemma_small_reduce(self.value as int);
            lemma_small_reduce(other.value as int);
        }
        let v = base_sub(self.value, other.value);
        proof {
            lemma_small_reduce(v as int);
        }
        Felt { value: v }
    }
}

} // verus!
