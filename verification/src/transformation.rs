//! The 4x4 matrix that maps quad coordinates to clip space.

use crate::float::{same_number, float_eq, ONE, ZERO};
use vstd::prelude::*;

verus! {

/// A 4x4 matrix, column by column, each entry the bits of a
/// single-precision number.
///
/// `==` compares the bits. [`Transformation::equals`] compares the numbers.
#[derive(Clone, Copy, Debug, PartialEq, Eq)]
pub struct Transformation {
    /// The sixteen entries in the order the device expects them.
    pub matrix: [u32; 16],
}

impl Transformation {
    /// The matrix that changes nothing: ones on the diagonal, zeros elsewhere.
    pub open spec fn spec_identity() -> Transformation {
        Transformation {
            matrix: [
                ONE, ZERO, ZERO, ZERO,
                ZERO, ONE, ZERO, ZERO,
                ZERO, ZERO, ONE, ZERO,
                ZERO, ZERO, ZERO, ONE,
            ],
        }
    }

    /// The identity matrix.
    #[verifier::when_used_as_spec(spec_identity)]
    pub fn identity() -> (transformation: Transformation)
        ensures
            transformation == Self::spec_identity(),
    {
        Transformation {
            matrix: [
                ONE, ZERO, ZERO, ZERO,
                ZERO, ONE, ZERO, ZERO,
                ZERO, ZERO, ONE, ZERO,
                ZERO, ZERO, ZERO, ONE,
            ],
        }
    }

    /// Whether the two matrices are equal as matrices of numbers: every
    /// entry of one equals the entry of the other in the same place.
    pub open spec fn same(self, other: Transformation) -> bool {
        forall|i: int| 0 <= i < 16 ==> same_number(#[trigger] self.matrix[i], other.matrix[i])
    }

    /// Whether any entry is "not a number".
    pub open spec fn has_nan(self) -> bool {
        exists|i: int| 0 <= i < 16 && crate::float::is_nan(#[trigger] self.matrix[i])
    }

    /// Compares two matrices entry by entry.
    pub fn equals(&self, other: &Transformation) -> (equal: bool)
        ensures
            equal == self.same(*other),
    {
        let mut i: usize = 0;
        while i < 16
            invariant
                i <= 16,
                forall|j: int|
                    0 <= j < i ==> same_number(#[trigger] self.matrix[j], other.matrix[j]),
            decreases 16 - i,
        {
            if !float_eq(self.matrix[i], other.matrix[i]) {
                return false;
            }
            i += 1;
        }
        true
    }
}

} // verus!
