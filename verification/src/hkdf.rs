//! Mapping of operation-layer HKDF errors into the facade's typed
//! `CryptoError`.

use vstd::prelude::*;

use crate::algorithm::HkdfHash;
use crate::crypto_error::{CryptoError, HkdfFailureKind};
use crate::operations::{OperationError, PrimitiveErrorReason, ProviderErrorReason};

verus! {

/// Facade error for an operation-layer HKDF error.
pub open spec fn spec_crypto_error_from_operation_error(
    hash: HkdfHash,
    error: OperationError,
) -> CryptoError {
    match error {
        OperationError::Provider { reason: ProviderErrorReason::UnsupportedAlgorithm } =>
            CryptoError::Unsupported,
        _ => CryptoError::Hkdf {
            hash,
            kind: match error {
                OperationError::Primitive { reason: PrimitiveErrorReason::InvalidKey } =>
                    HkdfFailureKind::InvalidIkmLength,
                OperationError::Primitive { reason: PrimitiveErrorReason::InvalidLength } =>
                    HkdfFailureKind::InvalidOutputLength,
                OperationError::Primitive { reason: PrimitiveErrorReason::LengthOverflow } =>
                    HkdfFailureKind::LengthOverflow,
                _ => HkdfFailureKind::ExpandFailed,
            },
        },
    }
}

/// Facade error for an operation-layer HKDF error.
pub fn crypto_error_from_operation_error(hash: HkdfHash, error: OperationError) -> (mapped:
    CryptoError)
    ensures
        mapped == spec_crypto_error_from_operation_error(hash, error),
{
    let kind = match error {
        OperationError::Primitive { reason: PrimitiveErrorReason::InvalidKey } =>
            HkdfFailureKind::InvalidIkmLength,
        OperationError::Primitive { reason: PrimitiveErrorReason::InvalidLength } =>
            HkdfFailureKind::InvalidOutputLength,
        OperationError::Primitive { reason: PrimitiveErrorReason::LengthOverflow } =>
            HkdfFailureKind::LengthOverflow,
        OperationError::Provider { reason: ProviderErrorReason::UnsupportedAlgorithm } => {
            return CryptoError::Unsupported;
        },
        _ => HkdfFailureKind::ExpandFailed,
    };
    CryptoError::Hkdf { hash, kind }
}

} // verus!
