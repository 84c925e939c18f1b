//! Semantic owner for raw-key signature operations: the signature algorithm
//! gate, the SLH-DSA derivation-input policy, and the classification of
//! dispatch and primitive failures.

use vstd::prelude::*;

use super::error::unsupported_algorithm;
use super::{BackendErrorReason, OperationError, PrimitiveErrorReason, ProviderErrorReason};
use crate::algorithm::Algorithm;
use crate::crypto_error::{AlgorithmError, CryptoError, SignatureFailureKind};

verus! {

/// Length of each SLH-DSA-SHA2-128s key-generation seed component
/// (`SK.seed`, `SK.prf`, `PK.seed`): the parameter set's `n` of 16 bytes.
pub const SLH_DSA_SEED_COMPONENT_LEN: usize = 16;

/// Length of the SLH-DSA derivation input: the three seed components
/// concatenated.
pub const SLH_DSA_DERIVE_INPUT_LEN: usize = 48;

/// Whether the algorithm is a supported raw-key signature algorithm.
pub open spec fn spec_is_supported_signature_algorithm(algorithm: Algorithm) -> bool {
    match algorithm {
        Algorithm::Ed25519
        | Algorithm::P256
        | Algorithm::P384
        | Algorithm::P521
        | Algorithm::Secp256k1
        | Algorithm::MlDsa44
        | Algorithm::MlDsa65
        | Algorithm::MlDsa87
        | Algorithm::SlhDsaSha2_128s => true,
        _ => false,
    }
}

/// Whether the algorithm is a supported raw-key signature algorithm.
pub fn is_supported_signature_algorithm(algorithm: Algorithm) -> (supported: bool)
    ensures
        supported == spec_is_supported_signature_algorithm(algorithm),
{
    match algorithm {
        Algorithm::Ed25519
        | Algorithm::P256
        | Algorithm::P384
        | Algorithm::P521
        | Algorithm::Secp256k1
        | Algorithm::MlDsa44
        | Algorithm::MlDsa65
        | Algorithm::MlDsa87
        | Algorithm::SlhDsaSha2_128s => true,
        _ => false,
    }
}

/// Admits only signature algorithms; every other algorithm is unsupported here.
pub fn ensure_supported_signature_algorithm(algorithm: Algorithm) -> (outcome: Result<
    (),
    OperationError,
>)
    ensures
        spec_is_supported_signature_algorithm(algorithm) ==> outcome is Ok,
        !spec_is_supported_signature_algorithm(algorithm) ==> outcome == Err::<(), OperationError>(
            OperationError::Provider { reason: ProviderErrorReason::UnsupportedAlgorithm },
        ),
{
    if is_supported_signature_algorithm(algorithm) {
        Ok(())
    } else {
        Err(unsupported_algorithm())
    }
}

/// Primitive that carries out a raw-key signature operation.
#[derive(Debug, Clone, Copy, PartialEq, Eq, Structural)]
pub enum SignatureBackend {
    /// The dedicated SLH-DSA-SHA2-128s primitive, which algorithm-selected
    /// dispatch does not cover.
    SlhDsaSha2_128s,
    /// Algorithm-selected dispatch for the given algorithm.
    Dispatch(Algorithm),
}

/// Gates a raw-key signature operation and selects the primitive that carries
/// it out: SLH-DSA-SHA2-128s goes to its dedicated primitive, every other
/// supported algorithm to dispatch, and any other algorithm is unsupported.
pub fn signature_backend(algorithm: Algorithm) -> (outcome: Result<SignatureBackend, OperationError>)
    ensures
        !spec_is_supported_signature_algorithm(algorithm) ==> outcome == Err::<
            SignatureBackend,
            OperationError,
        >(OperationError::Provider { reason: ProviderErrorReason::UnsupportedAlgorithm }),
        spec_is_supported_signature_algorithm(algorithm) && algorithm == Algorithm::SlhDsaSha2_128s
            ==> outcome == Ok::<SignatureBackend, OperationError>(
            SignatureBackend::SlhDsaSha2_128s,
        ),
        spec_is_supported_signature_algorithm(algorithm) && algorithm != Algorithm::SlhDsaSha2_128s
            ==> outcome == Ok::<SignatureBackend, OperationError>(
            SignatureBackend::Dispatch(algorithm),
        ),
{
    ensure_supported_signature_algorithm(algorithm)?;
    match algorithm {
        Algorithm::SlhDsaSha2_128s => Ok(SignatureBackend::SlhDsaSha2_128s),
        _ => Ok(SignatureBackend::Dispatch(algorithm)),
    }
}

/// Splits SLH-DSA derivation input into its `SK.seed`, `SK.prf`, and `PK.seed`
/// components, rejecting input of any other length as an invalid key.
pub fn split_slh_dsa_derive_input(secret_key: &[u8]) -> (outcome: Result<
    (&[u8], &[u8], &[u8]),
    OperationError,
>)
    ensures
        secret_key@.len() != 48 ==> outcome == Err::<(&[u8], &[u8], &[u8]), OperationError>(
            OperationError::Primitive { reason: PrimitiveErrorReason::InvalidKey },
        ),
        secret_key@.len() == 48 ==> (outcome matches Ok((sk_seed, sk_prf, pk_seed)) && sk_seed@
            == secret_key@.subrange(0, 16) && sk_prf@ == secret_key@.subrange(16, 32) && pk_seed@
            == secret_key@.subrange(32, 48)),
{
    if secret_key.len() != SLH_DSA_DERIVE_INPUT_LEN {
        return Err(OperationError::Primitive { reason: PrimitiveErrorReason::InvalidKey });
    }
    let sk_seed = vstd::slice::slice_subrange(secret_key, 0, SLH_DSA_SEED_COMPONENT_LEN);
    let sk_prf = vstd::slice::slice_subrange(
        secret_key,
        SLH_DSA_SEED_COMPONENT_LEN,
        2 * SLH_DSA_SEED_COMPONENT_LEN,
    );
    let pk_seed = vstd::slice::slice_subrange(
        secret_key,
        2 * SLH_DSA_SEED_COMPONENT_LEN,
        SLH_DSA_DERIVE_INPUT_LEN,
    );
    Ok((sk_seed, sk_prf, pk_seed))
}

/// Operation error for a primitive failure during a signature operation.
pub open spec fn signature_crypto_error(error: CryptoError) -> OperationError {
    match error {
        CryptoError::InvalidKey => OperationError::Primitive {
            reason: PrimitiveErrorReason::InvalidKey,
        },
        CryptoError::Signature { kind, .. } => match kind {
            SignatureFailureKind::InvalidPrivateKey | SignatureFailureKind::InvalidPublicKey =>
                OperationError::Primitive { reason: PrimitiveErrorReason::InvalidKey },
            SignatureFailureKind::InvalidSignature => OperationError::Primitive {
                reason: PrimitiveErrorReason::VerificationFailed,
            },
            SignatureFailureKind::InvalidMessage => OperationError::Primitive {
                reason: PrimitiveErrorReason::InvalidLength,
            },
            SignatureFailureKind::KeyGenerationFailed => OperationError::Backend {
                reason: BackendErrorReason::Internal,
            },
            SignatureFailureKind::SecureEnclaveUnavailable => OperationError::Provider {
                reason: ProviderErrorReason::HardwareUnavailable,
            },
            SignatureFailureKind::SecureEnclaveRejectedKey => OperationError::Provider {
                reason: ProviderErrorReason::HardwareRejectedKey,
            },
        },
        CryptoError::Unsupported => OperationError::Provider {
            reason: ProviderErrorReason::UnsupportedAlgorithm,
        },
        _ => OperationError::Backend { reason: BackendErrorReason::Internal },
    }
}

/// Operation error for a dispatch failure during a signature operation.
pub open spec fn signature_dispatch_error(error: AlgorithmError) -> OperationError {
    match error {
        AlgorithmError::UnsupportedAlgorithm(_)
        | AlgorithmError::UnsupportedAeadAlgorithm(_)
        | AlgorithmError::UnsupportedHashAlgorithm(_)
        | AlgorithmError::UnsupportedMacAlgorithm(_) => OperationError::Provider {
            reason: ProviderErrorReason::UnsupportedAlgorithm,
        },
        AlgorithmError::InvalidKey(_) => OperationError::Primitive {
            reason: PrimitiveErrorReason::InvalidKey,
        },
        AlgorithmError::SignatureInvalid(_) => OperationError::Primitive {
            reason: PrimitiveErrorReason::VerificationFailed,
        },
        AlgorithmError::Crypto(error) => signature_crypto_error(error),
        AlgorithmError::Other => OperationError::Backend { reason: BackendErrorReason::Internal },
    }
}

/// Classifies a primitive failure during a signature operation.
pub fn map_crypto_error(error: CryptoError) -> (mapped: OperationError)
    ensures
        mapped == signature_crypto_error(error),
        error matches CryptoError::Signature { kind: SignatureFailureKind::InvalidSignature, .. }
            ==> mapped == (OperationError::Primitive {
            reason: PrimitiveErrorReason::VerificationFailed,
        }),
        error matches CryptoError::Signature { kind: SignatureFailureKind::InvalidPrivateKey, .. }
            ==> mapped == (OperationError::Primitive { reason: PrimitiveErrorReason::InvalidKey }),
        error matches CryptoError::Signature { kind: SignatureFailureKind::InvalidPublicKey, .. }
            ==> mapped == (OperationError::Primitive { reason: PrimitiveErrorReason::InvalidKey }),
        error matches CryptoError::Signature { kind: SignatureFailureKind::InvalidMessage, .. }
            ==> mapped == (OperationError::Primitive { reason: PrimitiveErrorReason::InvalidLength }),
        error matches CryptoError::Signature {
            kind: SignatureFailureKind::KeyGenerationFailed,
            ..
        } ==> mapped == (OperationError::Backend { reason: BackendErrorReason::Internal }),
        error matches CryptoError::Signature {
            kind: SignatureFailureKind::SecureEnclaveUnavailable,
            ..
        } ==> mapped == (OperationError::Provider {
            reason: ProviderErrorReason::HardwareUnavailable,
        }),
        error matches CryptoError::Signature {
            kind: SignatureFailureKind::SecureEnclaveRejectedKey,
            ..
        } ==> mapped == (OperationError::Provider {
            reason: ProviderErrorReason::HardwareRejectedKey,
        }),
{
    match error {
        CryptoError::InvalidKey => OperationError::Primitive {
            reason: PrimitiveErrorReason::InvalidKey,
        },
        CryptoError::Signature { kind, .. } => match kind {
            SignatureFailureKind::InvalidPrivateKey | SignatureFailureKind::InvalidPublicKey =>
                OperationError::Primitive { reason: PrimitiveErrorReason::InvalidKey },
            SignatureFailureKind::InvalidSignature => OperationError::Primitive {
                reason: PrimitiveErrorReason::VerificationFailed,
            },
            SignatureFailureKind::InvalidMessage => OperationError::Primitive {
                reason: PrimitiveErrorReason::InvalidLength,
            },
            SignatureFailureKind::KeyGenerationFailed => OperationError::Backend {
                reason: BackendErrorReason::Internal,
            },
            SignatureFailureKind::SecureEnclaveUnavailable => OperationError::Provider {
                reason: ProviderErrorReason::HardwareUnavailable,
            },
            SignatureFailureKind::SecureEnclaveRejectedKey => OperationError::Provider {
                reason: ProviderErrorReason::HardwareRejectedKey,
            },
        },
        CryptoError::Unsupported => unsupported_algorithm(),
        _ => OperationError::Backend { reason: BackendErrorReason::Internal },
    }
}

/// Classifies a dispatch failure during a signature operation.
pub fn map_dispatch_error(error: AlgorithmError) -> (mapped: OperationError)
    ensures
        mapped == signature_dispatch_error(error),
        error matches AlgorithmError::SignatureInvalid(_) ==> mapped == (OperationError::Primitive {
            reason: PrimitiveErrorReason::VerificationFailed,
        }),
        error matches AlgorithmError::Crypto(
            CryptoError::Signature { kind: SignatureFailureKind::InvalidSignature, .. },
        ) ==> mapped == (OperationError::Primitive {
            reason: PrimitiveErrorReason::VerificationFailed,
        }),
{
    match error {
        AlgorithmError::UnsupportedAlgorithm(_)
        | AlgorithmError::UnsupportedAeadAlgorithm(_)
        | AlgorithmError::UnsupportedHashAlgorithm(_)
        | AlgorithmError::UnsupportedMacAlgorithm(_) => unsupported_algorithm(),
        AlgorithmError::InvalidKey(_) => OperationError::Primitive {
            reason: PrimitiveErrorReason::InvalidKey,
        },
        AlgorithmError::SignatureInvalid(_) => OperationError::Primitive {
            reason: PrimitiveErrorReason::VerificationFailed,
        },
        AlgorithmError::Crypto(error) => map_crypto_error(error),
        _ => OperationError::Backend { reason: BackendErrorReason::Internal },
    }
}

} // verus!
