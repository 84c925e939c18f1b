//! Semantic owner for MAC operations: classification of HMAC failures.

use vstd::prelude::*;

use super::{BackendErrorReason, OperationError, PrimitiveErrorReason, ProviderErrorReason};
use crate::crypto_error::{CryptoError, MacFailureKind};

verus! {

/// Operation error for any failure an HMAC primitive reports.
pub open spec fn hmac_error(error: CryptoError) -> OperationError {
    match error {
        CryptoError::Mac { kind: MacFailureKind::InvalidKeyLength, .. } =>
            OperationError::Primitive { reason: PrimitiveErrorReason::InvalidKey },
        CryptoError::Mac { kind: MacFailureKind::InvalidTagLength, .. } =>
            OperationError::Primitive { reason: PrimitiveErrorReason::InvalidLength },
        CryptoError::Mac { kind: MacFailureKind::VerificationFailed, .. } =>
            OperationError::Primitive { reason: PrimitiveErrorReason::VerificationFailed },
        CryptoError::Mac { kind: MacFailureKind::BackendFailure, .. } =>
            OperationError::Backend { reason: BackendErrorReason::Internal },
        CryptoError::Unsupported => OperationError::Provider {
            reason: ProviderErrorReason::UnsupportedAlgorithm,
        },
        _ => OperationError::Backend { reason: BackendErrorReason::Internal },
    }
}

/// Classifies a failure reported by the HMAC primitive (key construction,
/// authentication, or verification).
pub fn map_hmac_error(error: CryptoError) -> (mapped: OperationError)
    ensures
        mapped == hmac_error(error),
{
    match error {
        CryptoError::Mac { kind: MacFailureKind::InvalidKeyLength, .. } =>
            OperationError::Primitive { reason: PrimitiveErrorReason::InvalidKey },
        CryptoError::Mac { kind: MacFailureKind::InvalidTagLength, .. } =>
            OperationError::Primitive { reason: PrimitiveErrorReason::InvalidLength },
        CryptoError::Mac { kind: MacFailureKind::VerificationFailed, .. } =>
            OperationError::Primitive { reason: PrimitiveErrorReason::VerificationFailed },
        CryptoError::Mac { kind: MacFailureKind::BackendFailure, .. } =>
            OperationError::Backend { reason: BackendErrorReason::Internal },
        CryptoError::Unsupported => OperationError::Provider {
            reason: ProviderErrorReason::UnsupportedAlgorithm,
        },
        _ => OperationError::Backend { reason: BackendErrorReason::Internal },
    }
}

} // verus!
