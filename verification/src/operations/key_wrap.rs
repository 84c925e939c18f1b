//! Semantic owner for AES-KW wrap and unwrap operations: classification of
//! key-wrap failures.

use vstd::prelude::*;

use super::{BackendErrorReason, OperationError, PrimitiveErrorReason, ProviderErrorReason};
use crate::crypto_error::{CryptoError, KeyWrapFailureKind};

verus! {

/// Operation error for any failure an AES-KW primitive reports.
pub open spec fn key_wrap_error(error: CryptoError) -> OperationError {
    match error {
        CryptoError::KeyWrap { kind: KeyWrapFailureKind::InvalidKekLength, .. } =>
            OperationError::Primitive { reason: PrimitiveErrorReason::InvalidKey },
        CryptoError::KeyWrap { kind: KeyWrapFailureKind::InvalidPlaintextLength, .. }
        | CryptoError::KeyWrap { kind: KeyWrapFailureKind::InvalidWrappedLength, .. } =>
            OperationError::Primitive { reason: PrimitiveErrorReason::InvalidLength },
        CryptoError::KeyWrap { kind: KeyWrapFailureKind::LengthOverflow, .. } =>
            OperationError::Primitive { reason: PrimitiveErrorReason::LengthOverflow },
        CryptoError::KeyWrap { kind: KeyWrapFailureKind::IntegrityCheckFailed, .. } =>
            OperationError::Primitive { reason: PrimitiveErrorReason::VerificationFailed },
        CryptoError::KeyWrap { kind: KeyWrapFailureKind::BackendFailure, .. } =>
            OperationError::Backend { reason: BackendErrorReason::Internal },
        CryptoError::Unsupported => OperationError::Provider {
            reason: ProviderErrorReason::UnsupportedAlgorithm,
        },
        _ => OperationError::Backend { reason: BackendErrorReason::Internal },
    }
}

/// Classifies a failure reported by the AES-KW primitive (KEK construction,
/// wrapping, or unwrapping).
pub fn map_key_wrap_error(error: CryptoError) -> (mapped: OperationError)
    ensures
        mapped == key_wrap_error(error),
{
    match error {
        CryptoError::KeyWrap { kind: KeyWrapFailureKind::InvalidKekLength, .. } =>
            OperationError::Primitive { reason: PrimitiveErrorReason::InvalidKey },
        CryptoError::KeyWrap { kind: KeyWrapFailureKind::InvalidPlaintextLength, .. }
        | CryptoError::KeyWrap { kind: KeyWrapFailureKind::InvalidWrappedLength, .. } =>
            OperationError::Primitive { reason: PrimitiveErrorReason::InvalidLength },
        CryptoError::KeyWrap { kind: KeyWrapFailureKind::LengthOverflow, .. } =>
            OperationError::Primitive { reason: PrimitiveErrorReason::LengthOverflow },
        CryptoError::KeyWrap { kind: KeyWrapFailureKind::IntegrityCheckFailed, .. } =>
            OperationError::Primitive { reason: PrimitiveErrorReason::VerificationFailed },
        CryptoError::KeyWrap { kind: KeyWrapFailureKind::BackendFailure, .. } =>
            OperationError::Backend { reason: BackendErrorReason::Internal },
        CryptoError::Unsupported => OperationError::Provider {
            reason: ProviderErrorReason::UnsupportedAlgorithm,
        },
        _ => OperationError::Backend { reason: BackendErrorReason::Internal },
    }
}

} // verus!
