//! The complex number as the verified layer sees it.
//!
//! The renderer computes with double-precision complex numbers, but the
//! verifier does not model floating-point arithmetic.  The verified
//! layer therefore holds each component as its raw IEEE-754 bit
//! pattern: a plain 64-bit word that can be stored, compared and routed
//! exactly.  The embedding program converts losslessly in both
//! directions (`f64::to_bits` / `f64::from_bits`) and performs the
//! arithmetic itself.  Two values here are the same complex number
//! exactly when both bit patterns agree.

use vstd::prelude::*;

verus! {

/// A complex number, each component held as the bit pattern of a
/// double-precision float.
#[derive(Clone, Copy, Debug, PartialEq, Eq, Structural)]
pub struct Complex {
    /// Bit pattern of the real component.
    pub real_bits: u64,
    /// Bit pattern of the imaginary component.
    pub imaginary_bits: u64,
}

impl Complex {
    /// Builds a complex number from the two component bit patterns.
    pub fn new(real_bits: u64, imaginary_bits: u64) -> (z: Complex)
        ensures
            z.real_bits == real_bits,
            z.imaginary_bits == imaginary_bits,
    {
        Complex { real_bits, imaginary_bits }
    }
}

} // verus!
