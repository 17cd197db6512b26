//! The algebra of field elements: what equality and addition obey.

use crate::element::{FieldElement, MODULUS};
use vstd::prelude::*;
use vstd::std_specs::ops::AddSpec;

verus! {

/// Two inputs give equal elements exactly when they are congruent modulo `MODULUS`.
pub proof fn lemma_new_eq_iff_congruent(x: u64, y: u64)
    ensures
        (FieldElement::new(x) == FieldElement::new(y)) <==> (x % MODULUS == y % MODULUS),
{
    FieldElement::lemma_new_view(x);
    FieldElement::lemma_new_view(y);
    FieldElement::lemma_eq_by_view(FieldElement::new(x), FieldElement::new(y));
}

/// Addition is commutative.
pub proof fn lemma_add_commutative(a: FieldElement, b: FieldElement)
    ensures
        a.add_spec(b) == b.add_spec(a),
{
    FieldElement::lemma_add_view(a, b);
    FieldElement::lemma_add_view(b, a);
    FieldElement::lemma_eq_by_view(a.add_spec(b), b.add_spec(a));
}

/// Addition is associative.
pub proof fn lemma_add_associative(a: FieldElement, b: FieldElement, c: FieldElement)
    ensures
        a.add_spec(b).add_spec(c) == a.add_spec(b.add_spec(c)),
{
    let ab = a.add_spec(b);
    let bc = b.add_spec(c);
    FieldElement::lemma_add_view(a, b);
    FieldElement::lemma_add_view(b, c);
    FieldElement::lemma_add_view(ab, c);
    FieldElement::lemma_add_view(a, bc);
    FieldElement::lemma_eq_by_view(ab.add_spec(c), a.add_spec(bc));
}

/// The element built from zero is the identity of addition.
pub proof fn lemma_add_zero(a: FieldElement)
    requires
        a.canonical(),
    ensures
        a.add_spec(FieldElement::new(0)) == a,
        FieldElement::new(0).add_spec(a) == a,
{
    let zero = FieldElement::new(0);
    FieldElement::lemma_new_view(0);
    FieldElement::lemma_add_view(a, zero);
    FieldElement::lemma_add_view(zero, a);
    FieldElement::lemma_eq_by_view(a.add_spec(zero), a);
    FieldElement::lemma_eq_by_view(zero.add_spec(a), a);
}

} // verus!
