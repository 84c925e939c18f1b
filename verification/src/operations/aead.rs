//! Semantic owner for AEAD seal and open operations: classification of the
//! failures an AEAD primitive reports.

use vstd::prelude::*;

use super::{BackendErrorReason, OperationError, PrimitiveErrorReason, ProviderErrorReason};
use crate::crypto_error::{AeadFailureKind, CryptoError};

verus! {

/// Operation error for an AEAD failure kind.
pub open spec fn aead_failure_kind_error(kind: AeadFailureKind) -> OperationError {
    match kind {
        AeadFailureKind::InvalidKeyMaterial => OperationError::Primitive {
            reason: PrimitiveErrorReason::InvalidKey,
        },
        AeadFailureKind::LengthOverflow => OperationError::Primitive {
            reason: PrimitiveErrorReason::LengthOverflow,
        },
        AeadFailureKind::ShortCiphertext => OperationError::Primitive {
            reason: PrimitiveErrorReason::InvalidLength,
        },
        AeadFailureKind::InvalidOutputLength => OperationError::Backend {
            reason: BackendErrorReason::InvalidOutput,
        },
        AeadFailureKind::AuthenticationFailed => OperationError::Primitive {
            reason: PrimitiveErrorReason::VerificationFailed,
        },
        AeadFailureKind::BackendFailure => OperationError::Backend {
            reason: BackendErrorReason::Internal,
        },
    }
}

/// Operation error for any failure an AEAD primitive reports.
pub open spec fn aead_error(error: CryptoError) -> OperationError {
    match error {
        CryptoError::InvalidKey | CryptoError::InvalidAeadKeyLength { .. } =>
            OperationError::Primitive { reason: PrimitiveErrorReason::InvalidKey },
        CryptoError::InvalidAeadNonceLength { .. } | CryptoError::InvalidCiphertextLength { .. } =>
            OperationError::Primitive { reason: PrimitiveErrorReason::InvalidLength },
        CryptoError::AeadEncrypt { kind, .. } | CryptoError::AeadDecrypt { kind, .. } =>
            aead_failure_kind_error(kind),
        CryptoError::Unsupported => OperationError::Provider {
            reason: ProviderErrorReason::UnsupportedAlgorithm,
        },
        _ => OperationError::Backend { reason: BackendErrorReason::Internal },
    }
}

/// Classifies an AEAD failure kind.
pub fn map_aead_failure_kind(kind: AeadFailureKind) -> (mapped: OperationError)
    ensures
        mapped == aead_failure_kind_error(kind),
{
    match kind {
        AeadFailureKind::InvalidKeyMaterial => OperationError::Primitive {
            reason: PrimitiveErrorReason::InvalidKey,
        },
        AeadFailureKind::LengthOverflow => OperationError::Primitive {
            reason: PrimitiveErrorReason::LengthOverflow,
        },
        AeadFailureKind::ShortCiphertext => OperationError::Primitive {
            reason: PrimitiveErrorReason::InvalidLength,
        },
        AeadFailureKind::InvalidOutputLength => OperationError::Backend {
            reason: BackendErrorReason::InvalidOutput,
        },
        AeadFailureKind::AuthenticationFailed => OperationError::Primitive {
            reason: PrimitiveErrorReason::VerificationFailed,
        },
        AeadFailureKind::BackendFailure => OperationError::Backend {
            reason: BackendErrorReason::Internal,
        },
    }
}

/// Classifies a failure reported by an AEAD primitive (key or nonce
/// construction, sealing, or opening).
pub fn map_aead_error(error: CryptoError) -> (mapped: OperationError)
    ensures
        mapped == aead_error(error),
{
    match error {
        CryptoError::InvalidKey | CryptoError::InvalidAeadKeyLength { .. } =>
            OperationError::Primitive { reason: PrimitiveErrorReason::InvalidKey },
        CryptoError::InvalidAeadNonceLength { .. } | CryptoError::InvalidCiphertextLength { .. } =>
            OperationError::Primitive { reason: PrimitiveErrorReason::InvalidLength },
        CryptoError::AeadEncrypt { kind, .. } | CryptoError::AeadDecrypt { kind, .. } =>
            map_aead_failure_kind(kind),
        CryptoError::Unsupported => OperationError::Provider {
            reason: ProviderErrorReason::UnsupportedAlgorithm,
        },
        _ => OperationError::Backend { reason: BackendErrorReason::Internal },
    }
}

} // verus!
