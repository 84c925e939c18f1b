//! Semantic owner for key-derivation operations: classification of KDF and
//! HKDF failures.

use vstd::prelude::*;

use super::error::{backend, primitive, provider};
use super::{BackendErrorReason, OperationError, PrimitiveErrorReason, ProviderErrorReason};
use crate::crypto_error::{CryptoError, HkdfFailureKind, KdfFailureKind};

verus! {

/// Operation error for any failure an Argon2id, PBKDF2, KMAC256, or Concat KDF
/// primitive reports.
pub open spec fn kdf_error(error: CryptoError) -> OperationError {
    match error {
        CryptoError::Kdf { kind: KdfFailureKind::InvalidSecretLength, .. } =>
            OperationError::Primitive { reason: PrimitiveErrorReason::InvalidKey },
        CryptoError::Kdf { kind: KdfFailureKind::InvalidSaltLength, .. }
        | CryptoError::Kdf { kind: KdfFailureKind::InvalidOutputLength, .. } =>
            OperationError::Primitive { reason: PrimitiveErrorReason::InvalidLength },
        CryptoError::Kdf { kind: KdfFailureKind::InvalidIterationCount, .. }
        | CryptoError::Kdf { kind: KdfFailureKind::InvalidParams, .. } =>
            OperationError::Primitive { reason: PrimitiveErrorReason::InvalidParameter },
        CryptoError::Kdf { kind: KdfFailureKind::DerivationFailed, .. } =>
            OperationError::Backend { reason: BackendErrorReason::Internal },
        CryptoError::Unsupported => OperationError::Provider {
            reason: ProviderErrorReason::UnsupportedAlgorithm,
        },
        _ => OperationError::Backend { reason: BackendErrorReason::Internal },
    }
}

/// Operation error for any failure an HKDF primitive reports.
pub open spec fn hkdf_error(error: CryptoError) -> OperationError {
    match error {
        CryptoError::Hkdf { kind: HkdfFailureKind::InvalidIkmLength, .. } =>
            OperationError::Primitive { reason: PrimitiveErrorReason::InvalidKey },
        CryptoError::Hkdf { kind: HkdfFailureKind::InvalidDomainTagLength, .. }
        | CryptoError::Hkdf { kind: HkdfFailureKind::InvalidDomainTagByte, .. }
        | CryptoError::Hkdf { kind: HkdfFailureKind::InvalidOutputLength, .. } =>
            OperationError::Primitive { reason: PrimitiveErrorReason::InvalidLength },
        CryptoError::Hkdf { kind: HkdfFailureKind::LengthOverflow, .. } =>
            OperationError::Primitive { reason: PrimitiveErrorReason::LengthOverflow },
        CryptoError::Hkdf { kind: HkdfFailureKind::ExpandFailed, .. } =>
            OperationError::Backend { reason: BackendErrorReason::Internal },
        CryptoError::Unsupported => OperationError::Provider {
            reason: ProviderErrorReason::UnsupportedAlgorithm,
        },
        _ => OperationError::Backend { reason: BackendErrorReason::Internal },
    }
}

/// Classifies a failure reported by an Argon2id, PBKDF2, KMAC256, or Concat KDF
/// primitive.
pub fn map_kdf_error(error: CryptoError) -> (mapped: OperationError)
    ensures
        mapped == kdf_error(error),
{
    match error {
        CryptoError::Kdf { kind: KdfFailureKind::InvalidSecretLength, .. } =>
            primitive(PrimitiveErrorReason::InvalidKey),
        CryptoError::Kdf { kind: KdfFailureKind::InvalidSaltLength, .. }
        | CryptoError::Kdf { kind: KdfFailureKind::InvalidOutputLength, .. } =>
            primitive(PrimitiveErrorReason::InvalidLength),
        CryptoError::Kdf { kind: KdfFailureKind::InvalidIterationCount, .. }
        | CryptoError::Kdf { kind: KdfFailureKind::InvalidParams, .. } =>
            primitive(PrimitiveErrorReason::InvalidParameter),
        CryptoError::Kdf { kind: KdfFailureKind::DerivationFailed, .. } =>
            backend(BackendErrorReason::Internal),
        CryptoError::Unsupported => provider(ProviderErrorReason::UnsupportedAlgorithm),
        _ => backend(BackendErrorReason::Internal),
    }
}

/// Classifies a failure reported by the HKDF primitive.
pub fn map_hkdf_error(error: CryptoError) -> (mapped: OperationError)
    ensures
        mapped == hkdf_error(error),
{
    match error {
        CryptoError::Hkdf { kind: HkdfFailureKind::InvalidIkmLength, .. } =>
            primitive(PrimitiveErrorReason::InvalidKey),
        CryptoError::Hkdf { kind: HkdfFailureKind::InvalidDomainTagLength, .. }
        | CryptoError::Hkdf { kind: HkdfFailureKind::InvalidDomainTagByte, .. }
        | CryptoError::Hkdf { kind: HkdfFailureKind::InvalidOutputLength, .. } =>
            primitive(PrimitiveErrorReason::InvalidLength),
        CryptoError::Hkdf { kind: HkdfFailureKind::LengthOverflow, .. } =>
            primitive(PrimitiveErrorReason::LengthOverflow),
        CryptoError::Hkdf { kind: HkdfFailureKind::ExpandFailed, .. } =>
            backend(BackendErrorReason::Internal),
        CryptoError::Unsupported => provider(ProviderErrorReason::UnsupportedAlgorithm),
        _ => backend(BackendErrorReason::Internal),
    }
}

/// Applies the modern PBKDF2 work-factor policy before any derivation: the
/// iteration count must lie within the policy's inclusive bounds, which the
/// PBKDF2 primitive publishes; any other count is an invalid parameter.
pub fn require_pbkdf2_iterations(
    iterations: u32,
    min_iterations: u32,
    max_iterations: u32,
) -> (outcome: Result<(), OperationError>)
    ensures
        min_iterations <= iterations <= max_iterations ==> outcome is Ok,
        !(min_iterations <= iterations <= max_iterations) ==> outcome == Err::<(), OperationError>(
            OperationError::Primitive { reason: PrimitiveErrorReason::InvalidParameter },
        ),
{
    if iterations < min_iterations || iterations > max_iterations {
        return Err(primitive(PrimitiveErrorReason::InvalidParameter));
    }
    Ok(())
}

} // verus!
