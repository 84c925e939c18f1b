//! Semantic owner for operating-system randomness requests: the error every
//! randomness failure reports.

use vstd::prelude::*;

use super::{OperationError, ProviderErrorReason};

verus! {

/// The error every failed randomness request reports: the provider could not
/// obtain cryptographic randomness.
pub fn randomness_unavailable() -> (error: OperationError)
    ensures
        error == (OperationError::Provider { reason: ProviderErrorReason::RandomnessUnavailable }),
{
    OperationError::Provider { reason: ProviderErrorReason::RandomnessUnavailable }
}

} // verus!
