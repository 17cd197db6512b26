//! Arithmetic in the prime field of integers modulo a small fixed prime.
//!
//! A [`FieldElement`] holds the canonical representative of a residue class modulo
//! [`MODULUS`]. Elements are built by reduction, compared by representative, added
//! with reduction, and written out in decimal.

pub mod decimal;
pub mod element;
pub mod laws;

pub use element::FieldElement;
pub use element::MODULUS;
