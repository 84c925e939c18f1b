//! Mapping of operation-layer MAC errors into the facade's typed
//! `CryptoError`.

use vstd::prelude::*;

use crate::algorithm::{MacAlgorithm, MacHash};
use crate::crypto_error::{CryptoError, MacFailureKind};
use crate::operations::{OperationError, PrimitiveErrorReason, ProviderErrorReason};

verus! {

/// Hash underlying the HMAC algorithm.
pub open spec fn spec_mac_hash(algorithm: MacAlgorithm) -> MacHash {
    match algorithm {
        MacAlgorithm::HmacSha256 => MacHash::Sha2_256,
        MacAlgorithm::HmacSha384 => MacHash::Sha2_384,
        MacAlgorithm::HmacSha512 => MacHash::Sha2_512,
    }
}

/// Hash underlying the HMAC algorithm.
pub fn mac_hash(algorithm: MacAlgorithm) -> (hash: MacHash)
    ensures
        hash == spec_mac_hash(algorithm),
{
    match algorithm {
        MacAlgorithm::HmacSha256 => MacHash::Sha2_256,
        MacAlgorithm::HmacSha384 => MacHash::Sha2_384,
        MacAlgorithm::HmacSha512 => MacHash::Sha2_512,
    }
}

/// MAC failure kind an operation-layer error stands for, or `None` when the
/// error is an unsupported algorithm.
pub open spec fn spec_mac_failure_kind(error: OperationError) -> Option<MacFailureKind> {
    match error {
        OperationError::Primitive { reason: PrimitiveErrorReason::InvalidKey } => Some(
            MacFailureKind::InvalidKeyLength,
        ),
        OperationError::Primitive { reason: PrimitiveErrorReason::InvalidLength } => Some(
            MacFailureKind::InvalidTagLength,
        ),
        OperationError::Primitive { reason: PrimitiveErrorReason::VerificationFailed } => Some(
            MacFailureKind::VerificationFailed,
        ),
        OperationError::Provider { reason: ProviderErrorReason::UnsupportedAlgorithm } => None,
        _ => Some(MacFailureKind::BackendFailure),
    }
}

/// MAC failure kind an operation-layer error stands for, or `None` when the
/// error is an unsupported algorithm.
pub fn mac_failure_kind(error: OperationError) -> (kind: Option<MacFailureKind>)
    ensures
        kind == spec_mac_failure_kind(error),
{
    match error {
        OperationError::Primitive { reason: PrimitiveErrorReason::InvalidKey } => Some(
            MacFailureKind::InvalidKeyLength,
        ),
        OperationError::Primitive { reason: PrimitiveErrorReason::InvalidLength } => Some(
            MacFailureKind::InvalidTagLength,
        ),
        OperationError::Primitive { reason: PrimitiveErrorReason::VerificationFailed } => Some(
            MacFailureKind::VerificationFailed,
        ),
        OperationError::Provider { reason: ProviderErrorReason::UnsupportedAlgorithm } => None,
        _ => Some(MacFailureKind::BackendFailure),
    }
}

/// Facade error for an operation-layer MAC error.
pub open spec fn spec_crypto_error_from_operation_error(
    algorithm: MacAlgorithm,
    error: OperationError,
) -> CryptoError {
    match spec_mac_failure_kind(error) {
        Some(kind) => CryptoError::Mac { hash: spec_mac_hash(algorithm), kind },
        None => CryptoError::Unsupported,
    }
}

/// Facade error for an operation-layer MAC error.
pub fn crypto_error_from_operation_error(algorithm: MacAlgorithm, error: OperationError) -> (mapped:
    CryptoError)
    ensures
        mapped == spec_crypto_error_from_operation_error(algorithm, error),
{
    match mac_failure_kind(error) {
        Some(kind) => CryptoError::Mac { hash: mac_hash(algorithm), kind },
        None => CryptoError::Unsupported,
    }
}

} // verus!
