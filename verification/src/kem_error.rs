//! Mapping of operation-layer KEM errors into the facade's typed
//! `CryptoError`, one mapping per KEM operation.

use vstd::prelude::*;

use crate::crypto_error::{CryptoError, KemFailureKind, KeyAgreementFailureKind};
use crate::operations::{OperationError, PrimitiveErrorReason, ProviderErrorReason};

verus! {

/// Facade error for a failed KEM key generation or derivation.
pub fn crypto_error_from_kem_key_generation_operation_error(error: OperationError) -> (mapped:
    CryptoError)
    ensures
        mapped == match error {
            OperationError::Primitive { reason: PrimitiveErrorReason::InvalidKey } =>
                CryptoError::InvalidKey,
            OperationError::Provider { reason: ProviderErrorReason::UnsupportedAlgorithm } =>
                CryptoError::Unsupported,
            _ => CryptoError::KemFailure { kind: KemFailureKind::KeyGenerationFailed },
        },
{
    match error {
        OperationError::Primitive { reason: PrimitiveErrorReason::InvalidKey } =>
            CryptoError::InvalidKey,
        OperationError::Provider { reason: ProviderErrorReason::UnsupportedAlgorithm } =>
            CryptoError::Unsupported,
        _ => kem_failed(KemFailureKind::KeyGenerationFailed),
    }
}

/// Facade error for a failed KEM encapsulation.
pub fn crypto_error_from_kem_encapsulation_operation_error(error: OperationError) -> (mapped:
    CryptoError)
    ensures
        mapped == match error {
            OperationError::Primitive { reason: PrimitiveErrorReason::InvalidKey } =>
                CryptoError::InvalidKey,
            OperationError::Primitive { reason: PrimitiveErrorReason::InvalidSharedSecret } =>
                CryptoError::KeyAgreementFailure {
                kind: KeyAgreementFailureKind::DeriveSharedSecretFailed,
            },
            OperationError::Provider { reason: ProviderErrorReason::UnsupportedAlgorithm } =>
                CryptoError::Unsupported,
            _ => CryptoError::KemFailure { kind: KemFailureKind::EncapsulateFailed },
        },
{
    match error {
        OperationError::Primitive { reason: PrimitiveErrorReason::InvalidKey } =>
            CryptoError::InvalidKey,
        OperationError::Primitive { reason: PrimitiveErrorReason::InvalidSharedSecret } =>
            key_agreement_failed(),
        OperationError::Provider { reason: ProviderErrorReason::UnsupportedAlgorithm } =>
            CryptoError::Unsupported,
        _ => kem_failed(KemFailureKind::EncapsulateFailed),
    }
}

/// Facade error for a failed KEM decapsulation.
pub fn crypto_error_from_kem_decapsulation_operation_error(error: OperationError) -> (mapped:
    CryptoError)
    ensures
        mapped == match error {
            OperationError::Primitive { reason: PrimitiveErrorReason::InvalidKey } =>
                CryptoError::InvalidKey,
            OperationError::Provider { reason: ProviderErrorReason::UnsupportedAlgorithm } =>
                CryptoError::Unsupported,
            _ => CryptoError::KemFailure { kind: KemFailureKind::DecapsulateFailed },
        },
{
    match error {
        OperationError::Primitive { reason: PrimitiveErrorReason::InvalidKey } =>
            CryptoError::InvalidKey,
        OperationError::Primitive { reason: PrimitiveErrorReason::InvalidLength }
        | OperationError::Primitive { reason: PrimitiveErrorReason::VerificationFailed } =>
            kem_failed(KemFailureKind::DecapsulateFailed),
        OperationError::Provider { reason: ProviderErrorReason::UnsupportedAlgorithm } =>
            CryptoError::Unsupported,
        _ => kem_failed(KemFailureKind::DecapsulateFailed),
    }
}

/// Facade error for a KEM failure of the given kind.
pub fn kem_failed(kind: KemFailureKind) -> (error: CryptoError)
    ensures
        error == (CryptoError::KemFailure { kind }),
{
    CryptoError::KemFailure { kind }
}

/// Facade error for a shared secret that could not be derived.
pub fn key_agreement_failed() -> (error: CryptoError)
    ensures
        error == (CryptoError::KeyAgreementFailure {
            kind: KeyAgreementFailureKind::DeriveSharedSecretFailed,
        }),
{
    CryptoError::KeyAgreementFailure { kind: KeyAgreementFailureKind::DeriveSharedSecretFailed }
}

} // verus!
