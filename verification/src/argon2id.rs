//! Mapping of operation-layer Argon2id errors into the facade's typed
//! `CryptoError`.

use vstd::prelude::*;

use crate::algorithm::{KdfAlgorithm, KdfProfile};
use crate::crypto_error::{CryptoError, KdfFailureKind};
use crate::operations::{OperationError, PrimitiveErrorReason, ProviderErrorReason};

verus! {

/// Facade error for an operation-layer Argon2id error under the given cost
/// profile.
///
/// Length failures of the secret are attributed to the secret; every other
/// length failure means the parameters did not fit the profile.
pub open spec fn spec_crypto_error_from_operation_error(
    profile: KdfProfile,
    error: OperationError,
) -> CryptoError {
    match error {
        OperationError::Provider { reason: ProviderErrorReason::UnsupportedAlgorithm } =>
            CryptoError::Unsupported,
        _ => CryptoError::Kdf {
            algorithm: KdfAlgorithm::Argon2id,
            profile,
            kind: match error {
                OperationError::Primitive { reason: PrimitiveErrorReason::InvalidKey } =>
                    KdfFailureKind::InvalidSecretLength,
                OperationError::Primitive { reason: PrimitiveErrorReason::InvalidLength }
                | OperationError::Primitive { reason: PrimitiveErrorReason::LengthOverflow } =>
                    KdfFailureKind::InvalidParams,
                _ => KdfFailureKind::DerivationFailed,
            },
        },
    }
}

/// Facade error for an operation-layer Argon2id error under the given cost
/// profile.
pub fn crypto_error_from_operation_error(profile: KdfProfile, error: OperationError) -> (mapped:
    CryptoError)
    ensures
        mapped == spec_crypto_error_from_operation_error(profile, error),
{
    let kind = match error {
        OperationError::Primitive { reason: PrimitiveErrorReason::InvalidKey } =>
            KdfFailureKind::InvalidSecretLength,
        OperationError::Primitive { reason: PrimitiveErrorReason::InvalidLength }
        | OperationError::Primitive { reason: PrimitiveErrorReason::LengthOverflow } =>
            KdfFailureKind::InvalidParams,
        OperationError::Provider { reason: ProviderErrorReason::UnsupportedAlgorithm } => {
            return CryptoError::Unsupported;
        },
        _ => KdfFailureKind::DerivationFailed,
    };
    CryptoError::Kdf { algorithm: KdfAlgorithm::Argon2id, profile, kind }
}

} // verus!
