//! Single-precision numbers (IEEE 754, binary32) carried as their 32 bits.
//!
//! Quads, matrices and scale factors pass through the library untouched; the
//! only question ever asked of a number is whether it equals another one.

use vstd::prelude::*;

verus! {

/// The bits of the number zero (with a positive sign).
pub const ZERO: u32 = 0;

/// The bits of the number one: 1.0 as a binary32.
pub const ONE: u32 = 0x3F80_0000;

/// The bits of a number without its sign bit.
pub open spec fn magnitude(bits: u32) -> int {
    bits as int % 0x8000_0000
}

/// Whether the bits encode "not a number": all exponent bits set and a
/// fraction that is not zero.
pub open spec fn is_nan(bits: u32) -> bool {
    magnitude(bits) > 0x7F80_0000
}

/// Whether the bits encode zero, of either sign.
pub open spec fn is_zero(bits: u32) -> bool {
    magnitude(bits) == 0
}

/// Equality of the two numbers as IEEE 754 defines it: a NaN equals nothing,
/// itself included; the two zeros are equal; any other number equals only
/// its own bits.
pub open spec fn same_number(a: u32, b: u32) -> bool {
    &&& !is_nan(a)
    &&& !is_nan(b)
    &&& (a == b || (is_zero(a) && is_zero(b)))
}

/// Compares two numbers given by their bits.
pub fn float_eq(a: u32, b: u32) -> (equal: bool)
    ensures
        equal == same_number(a, b),
{
    let a_magnitude: u32 = a % 0x8000_0000;
    let b_magnitude: u32 = b % 0x8000_0000;
    if a_magnitude > 0x7F80_0000 || b_magnitude > 0x7F80_0000 {
        false
    } else {
        a == b || (a_magnitude == 0 && b_magnitude == 0)
    }
}

/// Equality of numbers is reflexive away from NaN and always symmetric.
pub proof fn lemma_same_number(a: u32, b: u32)
    ensures
        same_number(a, a) <==> !is_nan(a),
        same_number(a, b) == same_number(b, a),
        a == b && !is_nan(a) ==> same_number(a, b),
{
}

} // verus!
