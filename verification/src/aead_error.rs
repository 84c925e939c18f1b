//! Mapping of operation-layer AEAD errors into the facade's typed
//! `CryptoError`, together with the AEAD parameter tables.

use vstd::prelude::*;

use crate::algorithm::{AeadAlgorithm, AeadBackend};
use crate::crypto_error::{AeadFailureKind, CryptoError};
use crate::operations::{
    BackendErrorReason, OperationError, PrimitiveErrorReason, ProviderErrorReason,
};

verus! {

/// AES-128-GCM key length in bytes.
pub const AES_128_GCM_KEY_LEN: usize = 16;
/// AES-192-GCM key length in bytes.
pub const AES_192_GCM_KEY_LEN: usize = 24;
/// Key length of every 256-bit AEAD in bytes.
pub const AEAD_256_BIT_KEY_LEN: usize = 32;
/// Standard 96-bit AEAD nonce length in bytes.
pub const STANDARD_AEAD_NONCE_LEN: usize = 12;
/// XChaCha20-Poly1305 nonce length in bytes.
pub const XCHACHA20_POLY1305_NONCE_LEN: usize = 24;
/// Authentication-tag length of every supported AEAD in bytes.
pub const AEAD_TAG_LEN: usize = 16;

/// Direction of an AEAD operation.
#[derive(Debug, Clone, Copy, PartialEq, Eq, Structural)]
pub enum AeadOperation {
    /// Encrypt and authenticate.
    Seal,
    /// Authenticate and decrypt.
    Open,
}

/// Key length the AEAD algorithm requires.
pub open spec fn spec_key_length(algorithm: AeadAlgorithm) -> usize {
    match algorithm {
        AeadAlgorithm::Aes128Gcm => 16,
        AeadAlgorithm::Aes192Gcm => 24,
        _ => 32,
    }
}

/// Nonce length the AEAD algorithm requires.
pub open spec fn spec_nonce_length(algorithm: AeadAlgorithm) -> usize {
    match algorithm {
        AeadAlgorithm::XChaCha20Poly1305 => 24,
        _ => 12,
    }
}

/// Key length the AEAD algorithm requires.
pub fn key_length(algorithm: AeadAlgorithm) -> (len: usize)
    ensures
        len == spec_key_length(algorithm),
{
    match algorithm {
        AeadAlgorithm::Aes128Gcm => AES_128_GCM_KEY_LEN,
        AeadAlgorithm::Aes192Gcm => AES_192_GCM_KEY_LEN,
        AeadAlgorithm::Aes256Gcm
        | AeadAlgorithm::Aes256GcmSiv
        | AeadAlgorithm::ChaCha20Poly1305
        | AeadAlgorithm::XChaCha20Poly1305 => AEAD_256_BIT_KEY_LEN,
    }
}

/// Nonce length the AEAD algorithm requires.
pub fn nonce_length(algorithm: AeadAlgorithm) -> (len: usize)
    ensures
        len == spec_nonce_length(algorithm),
{
    match algorithm {
        AeadAlgorithm::Aes128Gcm
        | AeadAlgorithm::Aes192Gcm
        | AeadAlgorithm::Aes256Gcm
        | AeadAlgorithm::Aes256GcmSiv
        | AeadAlgorithm::ChaCha20Poly1305 => STANDARD_AEAD_NONCE_LEN,
        AeadAlgorithm::XChaCha20Poly1305 => XCHACHA20_POLY1305_NONCE_LEN,
    }
}

/// Authentication-tag length of the AEAD algorithm.
pub fn tag_length(algorithm: AeadAlgorithm) -> (len: usize)
    ensures
        len == 16,
{
    AEAD_TAG_LEN
}

/// Backend lane this build executes AEAD operations on.
pub fn current_backend() -> (backend: AeadBackend)
    ensures
        backend == AeadBackend::Native,
{
    AeadBackend::Native
}

/// Facade error for an AEAD failure of the given kind in the given direction.
pub open spec fn spec_aead_failure(operation: AeadOperation, kind: AeadFailureKind) -> CryptoError {
    match operation {
        AeadOperation::Seal => CryptoError::AeadEncrypt { backend: AeadBackend::Native, kind },
        AeadOperation::Open => CryptoError::AeadDecrypt { backend: AeadBackend::Native, kind },
    }
}

/// Facade error for an AEAD failure of the given kind in the given direction.
pub fn aead_failure(operation: AeadOperation, kind: AeadFailureKind) -> (error: CryptoError)
    ensures
        error == spec_aead_failure(operation, kind),
{
    match operation {
        AeadOperation::Seal => CryptoError::AeadEncrypt { backend: current_backend(), kind },
        AeadOperation::Open => CryptoError::AeadDecrypt { backend: current_backend(), kind },
    }
}

/// Facade error for a primitive whose output had the wrong shape.
pub fn invalid_output_error(operation: AeadOperation) -> (error: CryptoError)
    ensures
        error == spec_aead_failure(operation, AeadFailureKind::InvalidOutputLength),
{
    aead_failure(operation, AeadFailureKind::InvalidOutputLength)
}

/// Facade error for an operation-layer AEAD error, given the lengths the caller
/// supplied.
///
/// An `InvalidLength` is attributed to the nonce when the nonce length is
/// wrong, otherwise to the ciphertext when opening; while sealing with a
/// correct nonce it can only come from the backend.
pub open spec fn spec_crypto_error_from_operation_error(
    algorithm: AeadAlgorithm,
    operation: AeadOperation,
    error: OperationError,
    key_len: usize,
    nonce_len: usize,
    input_len: usize,
) -> CryptoError {
    match error {
        OperationError::Primitive { reason: PrimitiveErrorReason::InvalidKey } =>
            CryptoError::InvalidAeadKeyLength {
                expected: spec_key_length(algorithm),
                actual: key_len,
            },
        OperationError::Primitive { reason: PrimitiveErrorReason::InvalidLength } =>
            if nonce_len != spec_nonce_length(algorithm) {
                CryptoError::InvalidAeadNonceLength {
                    expected: spec_nonce_length(algorithm),
                    actual: nonce_len,
                }
            } else if operation == AeadOperation::Open {
                CryptoError::InvalidCiphertextLength { minimum: 16, actual: input_len }
            } else {
                spec_aead_failure(operation, AeadFailureKind::BackendFailure)
            },
        OperationError::Primitive { reason: PrimitiveErrorReason::LengthOverflow } =>
            spec_aead_failure(operation, AeadFailureKind::LengthOverflow),
        OperationError::Primitive { reason: PrimitiveErrorReason::VerificationFailed } =>
            spec_aead_failure(AeadOperation::Open, AeadFailureKind::AuthenticationFailed),
        OperationError::Provider { reason: ProviderErrorReason::UnsupportedAlgorithm } =>
            CryptoError::Unsupported,
        OperationError::Backend { reason: BackendErrorReason::InvalidOutput } =>
            spec_aead_failure(operation, AeadFailureKind::InvalidOutputLength),
        _ => spec_aead_failure(operation, AeadFailureKind::BackendFailure),
    }
}

/// Facade error for an operation-layer AEAD error, given the lengths the caller
/// supplied.
pub fn crypto_error_from_operation_error(
    algorithm: AeadAlgorithm,
    operation: AeadOperation,
    error: OperationError,
    key_len: usize,
    nonce_len: usize,
    input_len: usize,
) -> (mapped: CryptoError)
    ensures
        mapped == spec_crypto_error_from_operation_error(
            algorithm,
            operation,
            error,
            key_len,
            nonce_len,
            input_len,
        ),
{
    match error {
        OperationError::Primitive { reason: PrimitiveErrorReason::InvalidKey } =>
            CryptoError::InvalidAeadKeyLength { expected: key_length(algorithm), actual: key_len },
        OperationError::Primitive { reason: PrimitiveErrorReason::InvalidLength } => {
            if nonce_len != nonce_length(algorithm) {
                CryptoError::InvalidAeadNonceLength {
                    expected: nonce_length(algorithm),
                    actual: nonce_len,
                }
            } else if operation == AeadOperation::Open {
                CryptoError::InvalidCiphertextLength {
                    minimum: tag_length(algorithm),
                    actual: input_len,
                }
            } else {
                aead_failure(operation, AeadFailureKind::BackendFailure)
            }
        },
        OperationError::Primitive { reason: PrimitiveErrorReason::LengthOverflow } =>
            aead_failure(operation, AeadFailureKind::LengthOverflow),
        OperationError::Primitive { reason: PrimitiveErrorReason::VerificationFailed } =>
            aead_failure(AeadOperation::Open, AeadFailureKind::AuthenticationFailed),
        OperationError::Provider { reason: ProviderErrorReason::UnsupportedAlgorithm } =>
            CryptoError::Unsupported,
        OperationError::Backend { reason: BackendErrorReason::InvalidOutput } =>
            aead_failure(operation, AeadFailureKind::InvalidOutputLength),
        _ => aead_failure(operation, AeadFailureKind::BackendFailure),
    }
}

} // verus!
