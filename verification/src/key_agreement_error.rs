//! Mapping of operation-layer key-agreement errors into the facade's typed
//! `CryptoError`.

use vstd::prelude::*;

use crate::crypto_error::{CryptoError, KeyAgreementFailureKind};
use crate::operations::{OperationError, PrimitiveErrorReason, ProviderErrorReason};

verus! {

/// Facade error for a failed key-agreement key generation.
pub fn crypto_error_from_key_generation_operation_error(error: OperationError) -> (mapped:
    CryptoError)
    ensures
        mapped == match error {
            OperationError::Primitive { reason: PrimitiveErrorReason::InvalidKey } =>
                CryptoError::InvalidKey,
            OperationError::Provider { reason: ProviderErrorReason::UnsupportedAlgorithm } =>
                CryptoError::Unsupported,
            _ => CryptoError::KeyAgreementFailure {
                kind: KeyAgreementFailureKind::KeyGenerationFailed,
            },
        },
{
    match error {
        OperationError::Primitive { reason: PrimitiveErrorReason::InvalidKey } =>
            CryptoError::InvalidKey,
        OperationError::Provider { reason: ProviderErrorReason::UnsupportedAlgorithm } =>
            CryptoError::Unsupported,
        _ => key_generation_failed(),
    }
}

/// Facade error for a failed shared-secret derivation.
pub fn crypto_error_from_derive_shared_secret_operation_error(error: OperationError) -> (mapped:
    CryptoError)
    ensures
        mapped == match error {
            OperationError::Primitive { reason: PrimitiveErrorReason::InvalidKey } =>
                CryptoError::InvalidKey,
            OperationError::Provider { reason: ProviderErrorReason::UnsupportedAlgorithm } =>
                CryptoError::Unsupported,
            _ => CryptoError::KeyAgreementFailure {
                kind: KeyAgreementFailureKind::DeriveSharedSecretFailed,
            },
        },
{
    match error {
        OperationError::Primitive { reason: PrimitiveErrorReason::InvalidKey } =>
            CryptoError::InvalidKey,
        OperationError::Primitive { reason: PrimitiveErrorReason::InvalidSharedSecret } =>
            derive_shared_secret_failed(),
        OperationError::Provider { reason: ProviderErrorReason::UnsupportedAlgorithm } =>
            CryptoError::Unsupported,
        _ => derive_shared_secret_failed(),
    }
}

/// Facade error for a shared secret that could not be derived.
pub fn derive_shared_secret_failed() -> (error: CryptoError)
    ensures
        error == (CryptoError::KeyAgreementFailure {
            kind: KeyAgreementFailureKind::DeriveSharedSecretFailed,
        }),
{
    CryptoError::KeyAgreementFailure { kind: KeyAgreementFailureKind::DeriveSharedSecretFailed }
}

/// Facade error for a key-agreement key generation that failed.
pub fn key_generation_failed() -> (error: CryptoError)
    ensures
        error == (CryptoError::KeyAgreementFailure {
            kind: KeyAgreementFailureKind::KeyGenerationFailed,
        }),
{
    CryptoError::KeyAgreementFailure { kind: KeyAgreementFailureKind::KeyGenerationFailed }
}

} // verus!
