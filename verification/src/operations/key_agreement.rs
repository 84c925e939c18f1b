//! Semantic owner for raw key-agreement operations: the key-agreement
//! algorithm gate and the classification of dispatch and primitive failures.

use vstd::prelude::*;

use super::error::unsupported_algorithm;
use super::{BackendErrorReason, OperationError, PrimitiveErrorReason, ProviderErrorReason};
use crate::algorithm::Algorithm;
use crate::crypto_error::{AlgorithmError, CryptoError, KeyAgreementFailureKind};

verus! {

/// Whether the algorithm supports raw key agreement: X25519 and the NIST
/// curves.
pub open spec fn spec_is_key_agreement_algorithm(algorithm: Algorithm) -> bool {
    algorithm == Algorithm::X25519 || algorithm == Algorithm::P256 || algorithm == Algorithm::P384
        || algorithm == Algorithm::P521
}

/// Supports X25519 and NIST-curve raw key agreement.
pub fn is_key_agreement_algorithm(algorithm: Algorithm) -> (supported: bool)
    ensures
        supported == spec_is_key_agreement_algorithm(algorithm),
{
    match algorithm {
        Algorithm::X25519 | Algorithm::P256 | Algorithm::P384 | Algorithm::P521 => true,
        _ => false,
    }
}

/// Admits only key-agreement algorithms; every other algorithm is unsupported
/// here.
pub fn ensure_key_agreement_algorithm(algorithm: Algorithm) -> (outcome: Result<(), OperationError>)
    ensures
        spec_is_key_agreement_algorithm(algorithm) ==> outcome is Ok,
        !spec_is_key_agreement_algorithm(algorithm) ==> outcome == Err::<(), OperationError>(
            OperationError::Provider { reason: ProviderErrorReason::UnsupportedAlgorithm },
        ),
{
    if is_key_agreement_algorithm(algorithm) {
        Ok(())
    } else {
        Err(unsupported_algorithm())
    }
}

/// Operation error for a primitive failure during key agreement.
pub open spec fn key_agreement_crypto_error(error: CryptoError) -> OperationError {
    match error {
        CryptoError::InvalidKey => OperationError::Primitive {
            reason: PrimitiveErrorReason::InvalidKey,
        },
        CryptoError::KeyAgreementFailure {
            kind: KeyAgreementFailureKind::DeriveSharedSecretFailed,
        } => OperationError::Primitive { reason: PrimitiveErrorReason::InvalidSharedSecret },
        CryptoError::Unsupported => OperationError::Provider {
            reason: ProviderErrorReason::UnsupportedAlgorithm,
        },
        _ => OperationError::Backend { reason: BackendErrorReason::Internal },
    }
}

/// Operation error for a dispatch failure during key agreement.
pub open spec fn key_agreement_dispatch_error(error: AlgorithmError) -> OperationError {
    match error {
        AlgorithmError::UnsupportedAlgorithm(_)
        | AlgorithmError::UnsupportedAeadAlgorithm(_)
        | AlgorithmError::UnsupportedHashAlgorithm(_)
        | AlgorithmError::UnsupportedMacAlgorithm(_) => OperationError::Provider {
            reason: ProviderErrorReason::UnsupportedAlgorithm,
        },
        AlgorithmError::InvalidKey(_) => OperationError::Primitive {
            reason: PrimitiveErrorReason::InvalidKey,
        },
        AlgorithmError::SignatureInvalid(_) => OperationError::Primitive {
            reason: PrimitiveErrorReason::VerificationFailed,
        },
        AlgorithmError::Crypto(error) => key_agreement_crypto_error(error),
        AlgorithmError::Other => OperationError::Backend { reason: BackendErrorReason::Internal },
    }
}

/// Classifies a primitive failure during key agreement.
pub fn map_crypto_error(error: CryptoError) -> (mapped: OperationError)
    ensures
        mapped == key_agreement_crypto_error(error),
{
    match error {
        CryptoError::InvalidKey => OperationError::Primitive {
            reason: PrimitiveErrorReason::InvalidKey,
        },
        CryptoError::KeyAgreementFailure { kind } => match kind {
            KeyAgreementFailureKind::DeriveSharedSecretFailed => OperationError::Primitive {
                reason: PrimitiveErrorReason::InvalidSharedSecret,
            },
            KeyAgreementFailureKind::KeyGenerationFailed => OperationError::Backend {
                reason: BackendErrorReason::Internal,
            },
        },
        CryptoError::Unsupported => unsupported_algorithm(),
        _ => OperationError::Backend { reason: BackendErrorReason::Internal },
    }
}

/// Classifies a dispatch failure during key agreement.
pub fn map_dispatch_error(error: AlgorithmError) -> (mapped: OperationError)
    ensures
        mapped == key_agreement_dispatch_error(error),
{
    match error {
        AlgorithmError::UnsupportedAlgorithm(_)
        | AlgorithmError::UnsupportedAeadAlgorithm(_)
        | AlgorithmError::UnsupportedHashAlgorithm(_)
        | AlgorithmError::UnsupportedMacAlgorithm(_) => unsupported_algorithm(),
        AlgorithmError::InvalidKey(_) => OperationError::Primitive {
            reason: PrimitiveErrorReason::InvalidKey,
        },
        AlgorithmError::SignatureInvalid(_) => OperationError::Primitive {
            reason: PrimitiveErrorReason::VerificationFailed,
        },
        AlgorithmError::Crypto(error) => map_crypto_error(error),
        _ => OperationError::Backend { reason: BackendErrorReason::Internal },
    }
}

} // verus!
