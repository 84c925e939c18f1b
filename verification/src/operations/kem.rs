//! Semantic owner for raw KEM operations: the KEM algorithm gate and the
//! classification of dispatch and primitive failures.

use vstd::prelude::*;

use super::error::unsupported_algorithm;
use super::{BackendErrorReason, OperationError, PrimitiveErrorReason, ProviderErrorReason};
use crate::algorithm::Algorithm;
use crate::crypto_error::{AlgorithmError, CryptoError, KemFailureKind, KeyAgreementFailureKind};

verus! {

/// Whether the algorithm is one of the supported KEMs: ML-KEM and the standard
/// X-Wing KEM.
pub open spec fn spec_is_kem_algorithm(algorithm: Algorithm) -> bool {
    algorithm == Algorithm::MlKem512 || algorithm == Algorithm::MlKem768 || algorithm
        == Algorithm::MlKem1024 || algorithm == Algorithm::XWing768
}

/// Supports ML-KEM and the standard X-Wing KEM.
pub fn is_kem_algorithm(algorithm: Algorithm) -> (supported: bool)
    ensures
        supported == spec_is_kem_algorithm(algorithm),
{
    match algorithm {
        Algorithm::MlKem512 | Algorithm::MlKem768 | Algorithm::MlKem1024 | Algorithm::XWing768 =>
            true,
        _ => false,
    }
}

/// Admits only KEM algorithms; every other algorithm is unsupported here.
pub fn ensure_kem_algorithm(algorithm: Algorithm) -> (outcome: Result<(), OperationError>)
    ensures
        spec_is_kem_algorithm(algorithm) ==> outcome is Ok,
        !spec_is_kem_algorithm(algorithm) ==> outcome == Err::<(), OperationError>(
            OperationError::Provider { reason: ProviderErrorReason::UnsupportedAlgorithm },
        ),
{
    if is_kem_algorithm(algorithm) {
        Ok(())
    } else {
        Err(unsupported_algorithm())
    }
}

/// Operation error for a primitive failure during a KEM operation.
pub open spec fn kem_crypto_error(error: CryptoError) -> OperationError {
    match error {
        CryptoError::InvalidKey => OperationError::Primitive {
            reason: PrimitiveErrorReason::InvalidKey,
        },
        CryptoError::InvalidCiphertextLength { .. } => OperationError::Primitive {
            reason: PrimitiveErrorReason::InvalidLength,
        },
        CryptoError::KemFailure { kind: KemFailureKind::EncapsulateFailed } =>
            OperationError::Primitive { reason: PrimitiveErrorReason::InvalidKey },
        CryptoError::KemFailure { kind: KemFailureKind::DecapsulateFailed } =>
            OperationError::Primitive { reason: PrimitiveErrorReason::VerificationFailed },
        CryptoError::KeyAgreementFailure {
            kind: KeyAgreementFailureKind::DeriveSharedSecretFailed,
        } => OperationError::Primitive { reason: PrimitiveErrorReason::InvalidSharedSecret },
        CryptoError::Unsupported => OperationError::Provider {
            reason: ProviderErrorReason::UnsupportedAlgorithm,
        },
        _ => OperationError::Backend { reason: BackendErrorReason::Internal },
    }
}

/// Operation error for a dispatch failure during a KEM operation.
pub open spec fn kem_dispatch_error(error: AlgorithmError) -> OperationError {
    match error {
        AlgorithmError::UnsupportedAlgorithm(_)
        | AlgorithmError::UnsupportedAeadAlgorithm(_)
        | AlgorithmError::UnsupportedHashAlgorithm(_)
        | AlgorithmError::UnsupportedMacAlgorithm(_) => OperationError::Provider {
            reason: ProviderErrorReason::UnsupportedAlgorithm,
        },
        AlgorithmError::InvalidKey(_) => OperationError::Primitive {
            reason: PrimitiveErrorReason::InvalidKey,
        },
        AlgorithmError::SignatureInvalid(_) => OperationError::Primitive {
            reason: PrimitiveErrorReason::VerificationFailed,
        },
        AlgorithmError::Crypto(error) => kem_crypto_error(error),
        AlgorithmError::Other => OperationError::Backend { reason: BackendErrorReason::Internal },
    }
}

/// Classifies a primitive failure during a KEM operation.
pub fn map_crypto_error(error: CryptoError) -> (mapped: OperationError)
    ensures
        mapped == kem_crypto_error(error),
{
    match error {
        CryptoError::InvalidKey => OperationError::Primitive {
            reason: PrimitiveErrorReason::InvalidKey,
        },
        CryptoError::InvalidCiphertextLength { .. } => OperationError::Primitive {
            reason: PrimitiveErrorReason::InvalidLength,
        },
        CryptoError::KemFailure { kind } => match kind {
            KemFailureKind::KeyGenerationFailed => OperationError::Backend {
                reason: BackendErrorReason::Internal,
            },
            KemFailureKind::EncapsulateFailed => OperationError::Primitive {
                reason: PrimitiveErrorReason::InvalidKey,
            },
            KemFailureKind::DecapsulateFailed => OperationError::Primitive {
                reason: PrimitiveErrorReason::VerificationFailed,
            },
        },
        CryptoError::KeyAgreementFailure { kind } => match kind {
            KeyAgreementFailureKind::DeriveSharedSecretFailed => OperationError::Primitive {
                reason: PrimitiveErrorReason::InvalidSharedSecret,
            },
            KeyAgreementFailureKind::KeyGenerationFailed => OperationError::Backend {
                reason: BackendErrorReason::Internal,
            },
        },
        CryptoError::Unsupported => unsupported_algorithm(),
        _ => OperationError::Backend { reason: BackendErrorReason::Internal },
    }
}

/// Classifies a dispatch failure during a KEM operation.
pub fn map_dispatch_error(error: AlgorithmError) -> (mapped: OperationError)
    ensures
        mapped == kem_dispatch_error(error),
{
    match error {
        AlgorithmError::UnsupportedAlgorithm(_)
        | AlgorithmError::UnsupportedAeadAlgorithm(_)
        | AlgorithmError::UnsupportedHashAlgorithm(_)
        | AlgorithmError::UnsupportedMacAlgorithm(_) => unsupported_algorithm(),
        AlgorithmError::InvalidKey(_) => OperationError::Primitive {
            reason: PrimitiveErrorReason::InvalidKey,
        },
        AlgorithmError::SignatureInvalid(_) => OperationError::Primitive {
            reason: PrimitiveErrorReason::VerificationFailed,
        },
        AlgorithmError::Crypto(error) => map_crypto_error(error),
        _ => OperationError::Backend { reason: BackendErrorReason::Internal },
    }
}

} // verus!
