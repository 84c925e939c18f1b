//! Mapping of operation-layer KMAC256 errors into the facade's typed
//! `CryptoError`.

use vstd::prelude::*;

use crate::algorithm::{KdfAlgorithm, KdfProfile};
use crate::crypto_error::{CryptoError, KdfFailureKind};
use crate::operations::{OperationError, PrimitiveErrorReason, ProviderErrorReason};

verus! {

/// KDF failure kind an operation-layer error stands for in the KMAC256 and
/// Concat KDF facades, or `None` when the error is an unsupported algorithm.
pub open spec fn spec_output_kdf_failure_kind(error: OperationError) -> Option<KdfFailureKind> {
    match error {
        OperationError::Primitive { reason: PrimitiveErrorReason::InvalidKey } => Some(
            KdfFailureKind::InvalidSecretLength,
        ),
        OperationError::Primitive { reason: PrimitiveErrorReason::InvalidLength }
        | OperationError::Primitive { reason: PrimitiveErrorReason::LengthOverflow } => Some(
            KdfFailureKind::InvalidOutputLength,
        ),
        OperationError::Provider { reason: ProviderErrorReason::UnsupportedAlgorithm } => None,
        _ => Some(KdfFailureKind::DerivationFailed),
    }
}

/// KDF failure kind an operation-layer error stands for in the KMAC256 and
/// Concat KDF facades, or `None` when the error is an unsupported algorithm.
pub fn output_kdf_failure_kind(error: OperationError) -> (kind: Option<KdfFailureKind>)
    ensures
        kind == spec_output_kdf_failure_kind(error),
{
    match error {
        OperationError::Primitive { reason: PrimitiveErrorReason::InvalidKey } => Some(
            KdfFailureKind::InvalidSecretLength,
        ),
        OperationError::Primitive { reason: PrimitiveErrorReason::InvalidLength }
        | OperationError::Primitive { reason: PrimitiveErrorReason::LengthOverflow } => Some(
            KdfFailureKind::InvalidOutputLength,
        ),
        OperationError::Provider { reason: ProviderErrorReason::UnsupportedAlgorithm } => None,
        _ => Some(KdfFailureKind::DerivationFailed),
    }
}

/// Facade error for an operation-layer KMAC256 error.
pub open spec fn spec_crypto_error_from_operation_error(error: OperationError) -> CryptoError {
    match spec_output_kdf_failure_kind(error) {
        Some(kind) => CryptoError::Kdf {
            algorithm: KdfAlgorithm::Kmac256,
            profile: KdfProfile::Sp800185Kmac256,
            kind,
        },
        None => CryptoError::Unsupported,
    }
}

/// Facade error for an operation-layer KMAC256 error.
pub fn crypto_error_from_operation_error(error: OperationError) -> (mapped: CryptoError)
    ensures
        mapped == spec_crypto_error_from_operation_error(error),
{
    match output_kdf_failure_kind(error) {
        Some(kind) => CryptoError::Kdf {
            algorithm: KdfAlgorithm::Kmac256,
            profile: KdfProfile::Sp800185Kmac256,
            kind,
        },
        None => CryptoError::Unsupported,
    }
}

} // verus!
