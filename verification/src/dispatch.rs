//! Root dispatch facade: the borrowed parameter bundles and the mapping of
//! operation-layer errors into dispatch errors.

use vstd::prelude::*;

use crate::aead_error::{spec_crypto_error_from_operation_error, AeadOperation};
use crate::algorithm::{AeadAlgorithm, HashAlgorithm, MacAlgorithm};
use crate::crypto_error::{AlgorithmError, CryptoError};
use crate::hmac::{mac_failure_kind, mac_hash, spec_mac_failure_kind, spec_mac_hash};
use crate::operations::{OperationError, ProviderErrorReason};

verus! {

/// Borrowed AEAD inputs for the root operation-backed dispatch facade.
///
/// Key and nonce lengths are validated by the semantic operation owner. The
/// adapter borrows caller buffers and never truncates, pads, or retains them.
pub struct AeadParams<'a> {
    /// Symmetric key bytes borrowed for one AEAD operation.
    pub key: &'a [u8],
    /// Nonce bytes borrowed for one AEAD operation.
    pub nonce: &'a [u8],
    /// Additional authenticated data bound to the ciphertext.
    pub aad: &'a [u8],
}

/// Borrowed MAC inputs for the root operation-backed dispatch facade.
///
/// The operation owner validates the key before authentication or
/// verification; this adapter never truncates, pads, or retains caller-owned
/// key material.
pub struct MacParams<'a> {
    /// Symmetric key bytes borrowed for the duration of one MAC operation.
    pub key: &'a [u8],
}

/// Dispatch error for a failed digest computation.
pub fn hash_algorithm_error_from_operation_error(
    algorithm: HashAlgorithm,
    error: OperationError,
) -> (mapped: AlgorithmError)
    ensures
        mapped == match error {
            OperationError::Provider { reason: ProviderErrorReason::UnsupportedAlgorithm } =>
                AlgorithmError::UnsupportedHashAlgorithm(algorithm),
            _ => AlgorithmError::Crypto(CryptoError::Unsupported),
        },
{
    match error {
        OperationError::Provider { reason: ProviderErrorReason::UnsupportedAlgorithm } =>
            AlgorithmError::UnsupportedHashAlgorithm(algorithm),
        _ => AlgorithmError::Crypto(CryptoError::Unsupported),
    }
}

/// Dispatch error for a failed AEAD seal or open, given the lengths the caller
/// supplied.
pub fn aead_algorithm_error_from_operation_error(
    algorithm: AeadAlgorithm,
    operation: AeadOperation,
    error: OperationError,
    key_len: usize,
    nonce_len: usize,
    input_len: usize,
) -> (mapped: AlgorithmError)
    ensures
        mapped == match error {
            OperationError::Provider { reason: ProviderErrorReason::UnsupportedAlgorithm } =>
                AlgorithmError::UnsupportedAeadAlgorithm(algorithm),
            _ => AlgorithmError::Crypto(
                spec_crypto_error_from_operation_error(
                    algorithm,
                    operation,
                    error,
                    key_len,
                    nonce_len,
                    input_len,
                ),
            ),
        },
{
    match error {
        OperationError::Provider { reason: ProviderErrorReason::UnsupportedAlgorithm } =>
            AlgorithmError::UnsupportedAeadAlgorithm(algorithm),
        _ => AlgorithmError::Crypto(
            crate::aead_error::crypto_error_from_operation_error(
                algorithm,
                operation,
                error,
                key_len,
                nonce_len,
                input_len,
            ),
        ),
    }
}

/// Dispatch error for a failed MAC authentication or verification.
pub fn mac_algorithm_error_from_operation_error(algorithm: MacAlgorithm, error: OperationError) -> (mapped:
    AlgorithmError)
    ensures
        mapped == match spec_mac_failure_kind(error) {
            Some(kind) => AlgorithmError::Crypto(
                CryptoError::Mac { hash: spec_mac_hash(algorithm), kind },
            ),
            None => AlgorithmError::UnsupportedMacAlgorithm(algorithm),
        },
{
    match mac_failure_kind(error) {
        Some(kind) => AlgorithmError::Crypto(CryptoError::Mac { hash: mac_hash(algorithm), kind }),
        None => AlgorithmError::UnsupportedMacAlgorithm(algorithm),
    }
}

} // verus!
