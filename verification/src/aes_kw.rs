//! Mapping of operation-layer key-wrap errors into the facade's typed
//! `CryptoError`.

use vstd::prelude::*;

use crate::algorithm::{KeyWrapAlgorithm, KeyWrapOperation};
use crate::crypto_error::{CryptoError, KeyWrapFailureKind};
use crate::operations::{OperationError, PrimitiveErrorReason, ProviderErrorReason};

verus! {

/// Facade error for an operation-layer key-wrap error.
///
/// A length failure is attributed to the plaintext key material when wrapping
/// and to the wrapped key when unwrapping.
pub open spec fn spec_crypto_error_from_operation_error(
    algorithm: KeyWrapAlgorithm,
    operation: KeyWrapOperation,
    error: OperationError,
) -> CryptoError {
    match error {
        OperationError::Provider { reason: ProviderErrorReason::UnsupportedAlgorithm } =>
            CryptoError::Unsupported,
        _ => CryptoError::KeyWrap {
            algorithm,
            operation,
            kind: match error {
                OperationError::Primitive { reason: PrimitiveErrorReason::InvalidKey } =>
                    KeyWrapFailureKind::InvalidKekLength,
                OperationError::Primitive { reason: PrimitiveErrorReason::InvalidLength } =>
                    match operation {
                    KeyWrapOperation::Wrap => KeyWrapFailureKind::InvalidPlaintextLength,
                    KeyWrapOperation::Unwrap => KeyWrapFailureKind::InvalidWrappedLength,
                },
                OperationError::Primitive { reason: PrimitiveErrorReason::LengthOverflow } =>
                    KeyWrapFailureKind::LengthOverflow,
                OperationError::Primitive { reason: PrimitiveErrorReason::VerificationFailed } =>
                    KeyWrapFailureKind::IntegrityCheckFailed,
                _ => KeyWrapFailureKind::BackendFailure,
            },
        },
    }
}

/// Facade error for an operation-layer key-wrap error.
pub fn crypto_error_from_operation_error(
    algorithm: KeyWrapAlgorithm,
    operation: KeyWrapOperation,
    error: OperationError,
) -> (mapped: CryptoError)
    ensures
        mapped == spec_crypto_error_from_operation_error(algorithm, operation, error),
{
    let kind = match error {
        OperationError::Primitive { reason: PrimitiveErrorReason::InvalidKey } =>
            KeyWrapFailureKind::InvalidKekLength,
        OperationError::Primitive { reason: PrimitiveErrorReason::InvalidLength } =>
            match operation {
            KeyWrapOperation::Wrap => KeyWrapFailureKind::InvalidPlaintextLength,
            KeyWrapOperation::Unwrap => KeyWrapFailureKind::InvalidWrappedLength,
        },
        OperationError::Primitive { reason: PrimitiveErrorReason::LengthOverflow } =>
            KeyWrapFailureKind::LengthOverflow,
        OperationError::Primitive { reason: PrimitiveErrorReason::VerificationFailed } =>
            KeyWrapFailureKind::IntegrityCheckFailed,
        OperationError::Provider { reason: ProviderErrorReason::UnsupportedAlgorithm } => {
            return CryptoError::Unsupported;
        },
        _ => KeyWrapFailureKind::BackendFailure,
    };
    CryptoError::KeyWrap { algorithm, operation, kind }
}

} // verus!
