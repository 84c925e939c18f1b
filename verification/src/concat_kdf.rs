//! Mapping of operation-layer JWA Concat KDF errors into the facade's
//! typed `CryptoError`.

use vstd::prelude::*;

use crate::algorithm::{KdfAlgorithm, KdfProfile};
use crate::crypto_error::CryptoError;
use crate::kmac::{output_kdf_failure_kind, spec_output_kdf_failure_kind};
use crate::operations::OperationError;

verus! {

/// Facade error for an operation-layer Concat KDF error.
pub open spec fn spec_crypto_error_from_operation_error(error: OperationError) -> CryptoError {
    match spec_output_kdf_failure_kind(error) {
        Some(kind) => CryptoError::Kdf {
            algorithm: KdfAlgorithm::ConcatKdf,
            profile: KdfProfile::JwaEcdhEsSha256,
            kind,
        },
        None => CryptoError::Unsupported,
    }
}

/// Facade error for an operation-layer Concat KDF error.
pub fn crypto_error_from_operation_error(error: OperationError) -> (mapped: CryptoError)
    ensures
        mapped == spec_crypto_error_from_operation_error(error),
{
    match output_kdf_failure_kind(error) {
        Some(kind) => CryptoError::Kdf {
            algorithm: KdfAlgorithm::ConcatKdf,
            profile: KdfProfile::JwaEcdhEsSha256,
            kind,
        },
        None => CryptoError::Unsupported,
    }
}

} // verus!
