//! Semantic owner for constant-time equality operations.

use vstd::prelude::*;

use super::{OperationError, PrimitiveErrorReason};

verus! {

/// Compare same-length byte slices without data-dependent early exit.
///
/// Length mismatch remains public metadata and returns `false` before any byte
/// is inspected. Equal-length contents are folded into one difference
/// accumulator over every position, so the loop never exits on the first
/// differing byte.
pub fn equal(left: &[u8], right: &[u8]) -> (same: bool)
    ensures
        same == (left@ == right@),
{
    if left.len() != right.len() {
        return false;
    }
    let n = left.len();
    let mut difference: u8 = 0;
    let mut i: usize = 0;
    while i < n
        invariant
            n == left@.len(),
            n == right@.len(),
            i <= n,
            (difference == 0) == (forall|j: int| 0 <= j < i ==> left@[j] == right@[j]),
        decreases n - i,
    {
        let a = left[i];
        let b = right[i];
        let folded: u8 = difference | (a ^ b);
        assert((folded == 0) == (difference == 0 && a == b)) by (bit_vector)
            requires
                folded == difference | (a ^ b),
        ;
        difference = folded;
        i = i + 1;
    }
    let same = difference == 0;
    proof {
        if same {
            assert(left@ =~= right@);
        }
    }
    same
}

/// Compare fixed-size byte arrays without data-dependent early exit.
pub fn equal_fixed<const N: usize>(left: &[u8; N], right: &[u8; N]) -> (same: bool)
    ensures
        same == (left@ == right@),
{
    let l = vstd::array::array_as_slice(left);
    let r = vstd::array::array_as_slice(right);
    proof {
        vstd::array::axiom_spec_array_as_slice(left);
        vstd::array::axiom_spec_array_as_slice(right);
    }
    equal(l, r)
}

/// Require equality and return a fixed operation-layer reason on failure.
///
/// Different lengths report `InvalidLength`; equal lengths with different
/// contents report `VerificationFailed`.
pub fn require_equal(left: &[u8], right: &[u8]) -> (outcome: Result<(), OperationError>)
    ensures
        outcome is Ok <==> left@ == right@,
        left@.len() != right@.len() ==> outcome == Err::<(), OperationError>(
            OperationError::Primitive { reason: PrimitiveErrorReason::InvalidLength },
        ),
        left@.len() == right@.len() && left@ != right@ ==> outcome == Err::<(), OperationError>(
            OperationError::Primitive { reason: PrimitiveErrorReason::VerificationFailed },
        ),
{
    if left.len() != right.len() {
        return Err(OperationError::Primitive { reason: PrimitiveErrorReason::InvalidLength });
    }
    if equal(left, right) {
        return Ok(());
    }
    Err(OperationError::Primitive { reason: PrimitiveErrorReason::VerificationFailed })
}

} // verus!
