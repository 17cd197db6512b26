//! The field element type: a residue held in canonical form.

use crate::decimal::{decimal, decimal_string};
use vstd::prelude::*;
use vstd::std_specs::ops::AddSpec;

verus! {

/// The prime that defines the field. Every element is a residue modulo this number.
///
/// Addition sums two representatives below `MODULUS` in a `u64` before reducing,
/// so the constant has to satisfy `2 * (MODULUS - 1) <= u64::MAX`.
pub const MODULUS: u64 = 17;

/// An element of the field, stored as its canonical representative in `[0, MODULUS)`.
///
/// Two elements are equal exactly when their representatives are equal.
#[derive(Debug, Clone, Copy, PartialEq, Eq, Structural)]
pub struct FieldElement {
    value: u64,
}

impl View for FieldElement {
    type V = nat;

    /// The stored representative, as a natural number.
    closed spec fn view(&self) -> nat {
        self.value as nat
    }
}

impl FieldElement {
    /// The range invariant: the stored representative lies in `[0, MODULUS)`.
    ///
    /// It holds of every element that executable code can get hold of.
    #[verifier::type_invariant]
    pub open spec fn canonical(&self) -> bool {
        self@ < MODULUS
    }

    /// The element that stands for the residue class of `value`.
    pub closed spec fn spec_new(value: u64) -> Self {
        FieldElement { value: (value % MODULUS) as u64 }
    }

    /// Builds the element that stands for the residue class of `value`.
    #[verifier::when_used_as_spec(spec_new)]
    pub fn new(value: u64) -> (r: Self)
        ensures
            r == Self::spec_new(value),
            r@ == value % MODULUS,
            r.canonical(),
    {
        FieldElement { value: value % MODULUS }
    }

    /// The canonical representative.
    pub fn value(&self) -> (r: u64)
        ensures
            r == self@,
            r < MODULUS,
    {
        proof {
            use_type_invariant(self);
        }
        self.value
    }

    /// The element written out: the decimal notation of its canonical representative,
    /// with nothing before or after it.
    pub fn to_string(&self) -> (s: String)
        ensures
            s@ == decimal(self@),
    {
        decimal_string(self.value)
    }

    /// Elements are equal exactly when their representatives are.
    pub proof fn lemma_eq_by_view(a: Self, b: Self)
        ensures
            (a == b) <==> (a@ == b@),
    {
    }

    /// The representative of a freshly built element is the input reduced modulo
    /// `MODULUS`, and it is canonical.
    pub proof fn lemma_new_view(x: u64)
        ensures
            Self::new(x)@ == x % MODULUS,
            Self::new(x).canonical(),
    {
    }

    /// The representative of a sum is the sum of the representatives reduced modulo
    /// `MODULUS`, and it is canonical.
    pub proof fn lemma_add_view(a: Self, b: Self)
        ensures
            a.add_spec(b)@ == (a@ + b@) % (MODULUS as nat),
            a.add_spec(b).canonical(),
    {
    }
}

impl vstd::std_specs::ops::AddSpecImpl for FieldElement {
    open spec fn obeys_add_spec() -> bool {
        true
    }

    open spec fn add_req(self, rhs: FieldElement) -> bool {
        true
    }

    /// The sum of two elements: the residue class of the sum of their representatives.
    closed spec fn add_spec(self, rhs: FieldElement) -> FieldElement {
        FieldElement { value: ((self.value + rhs.value) % (MODULUS as int)) as u64 }
    }
}

impl core::ops::Add for FieldElement {
    type Output = FieldElement;

    /// Adds two elements of the field.
    fn add(self, other: FieldElement) -> (r: FieldElement)
        ensures
            r@ == (self@ + other@) % (MODULUS as nat),
            r.canonical(),
    {
        proof {
            use_type_invariant(self);
            use_type_invariant(other);
        }
        FieldElement::new(self.value() + other.value())
    }
}

} // verus!
