//! Typed errors reported by the primitive crates beneath the operation layer.

use vstd::prelude::*;

use crate::algorithm::{
    AeadAlgorithm, AeadBackend, Algorithm, HashAlgorithm, HkdfHash, KdfAlgorithm, KdfProfile,
    KeyWrapAlgorithm, KeyWrapOperation, MacAlgorithm, MacHash, SignatureOperation,
};

verus! {

/// Why an AEAD seal or open failed.
#[derive(Debug, Clone, Copy, PartialEq, Eq, Structural)]
pub enum AeadFailureKind {
    /// The key material was rejected.
    InvalidKeyMaterial,
    /// A checked length computation overflowed.
    LengthOverflow,
    /// The ciphertext is shorter than the authentication tag.
    ShortCiphertext,
    /// The backend produced output of an unexpected length.
    InvalidOutputLength,
    /// The authentication tag did not verify.
    AuthenticationFailed,
    /// The backend failed for another reason.
    BackendFailure,
}

/// Why a MAC computation or verification failed.
#[derive(Debug, Clone, Copy, PartialEq, Eq, Structural)]
pub enum MacFailureKind {
    /// The key length is outside the accepted range.
    InvalidKeyLength,
    /// The tag length does not match the algorithm.
    InvalidTagLength,
    /// The tag did not verify.
    VerificationFailed,
    /// The backend failed for another reason.
    BackendFailure,
}

/// Why a key wrap or unwrap failed.
#[derive(Debug, Clone, Copy, PartialEq, Eq, Structural)]
pub enum KeyWrapFailureKind {
    /// The key-encryption key has the wrong length.
    InvalidKekLength,
    /// The key material to wrap has an unacceptable length.
    InvalidPlaintextLength,
    /// The wrapped key has an unacceptable length.
    InvalidWrappedLength,
    /// A checked length computation overflowed.
    LengthOverflow,
    /// The RFC 3394 integrity check failed.
    IntegrityCheckFailed,
    /// The backend failed for another reason.
    BackendFailure,
}

/// Why a password-based or KMAC/Concat key derivation failed.
#[derive(Debug, Clone, Copy, PartialEq, Eq, Structural)]
pub enum KdfFailureKind {
    /// The secret has an unacceptable length.
    InvalidSecretLength,
    /// The salt has an unacceptable length.
    InvalidSaltLength,
    /// The requested output length is unacceptable.
    InvalidOutputLength,
    /// The iteration count is outside the policy range.
    InvalidIterationCount,
    /// The cost parameters are unacceptable.
    InvalidParams,
    /// The derivation itself failed.
    DerivationFailed,
}

/// Why an HKDF derivation failed.
#[derive(Debug, Clone, Copy, PartialEq, Eq, Structural)]
pub enum HkdfFailureKind {
    /// The input keying material has an unacceptable length.
    InvalidIkmLength,
    /// A domain tag has an unacceptable length.
    InvalidDomainTagLength,
    /// A domain tag holds a forbidden byte.
    InvalidDomainTagByte,
    /// The requested output length is unacceptable.
    InvalidOutputLength,
    /// A checked length computation overflowed.
    LengthOverflow,
    /// The expand step failed.
    ExpandFailed,
}

/// Why a KEM operation failed.
#[derive(Debug, Clone, Copy, PartialEq, Eq, Structural)]
pub enum KemFailureKind {
    /// Key generation failed.
    KeyGenerationFailed,
    /// Encapsulation failed.
    EncapsulateFailed,
    /// Decapsulation failed.
    DecapsulateFailed,
}

/// Why a key-agreement operation failed.
#[derive(Debug, Clone, Copy, PartialEq, Eq, Structural)]
pub enum KeyAgreementFailureKind {
    /// The shared secret could not be derived or failed validation.
    DeriveSharedSecretFailed,
    /// Key generation failed.
    KeyGenerationFailed,
}

/// Why a signature operation failed.
#[derive(Debug, Clone, Copy, PartialEq, Eq, Structural)]
pub enum SignatureFailureKind {
    /// The private key was rejected.
    InvalidPrivateKey,
    /// The public key was rejected.
    InvalidPublicKey,
    /// The signature did not verify.
    InvalidSignature,
    /// The message shape was rejected.
    InvalidMessage,
    /// Key generation failed.
    KeyGenerationFailed,
    /// The Secure Enclave is unavailable.
    SecureEnclaveUnavailable,
    /// The Secure Enclave rejected the key.
    SecureEnclaveRejectedKey,
}

/// Error reported by a primitive crate or a public facade route.
#[derive(Debug, Clone, Copy, PartialEq, Eq, Structural)]
#[allow(inconsistent_fields)]
pub enum CryptoError {
    /// The key was rejected.
    InvalidKey,
    /// The AEAD key length is wrong.
    InvalidAeadKeyLength {
        /// Length the algorithm requires.
        expected: usize,
        /// Length the caller supplied.
        actual: usize,
    },
    /// The AEAD nonce length is wrong.
    InvalidAeadNonceLength {
        /// Length the algorithm requires.
        expected: usize,
        /// Length the caller supplied.
        actual: usize,
    },
    /// The ciphertext is shorter than the minimum.
    InvalidCiphertextLength {
        /// Minimum accepted length.
        minimum: usize,
        /// Length the caller supplied.
        actual: usize,
    },
    /// AEAD sealing failed.
    AeadEncrypt {
        /// Backend lane that failed.
        backend: AeadBackend,
        /// Failure kind.
        kind: AeadFailureKind,
    },
    /// AEAD opening failed.
    AeadDecrypt {
        /// Backend lane that failed.
        backend: AeadBackend,
        /// Failure kind.
        kind: AeadFailureKind,
    },
    /// The algorithm or feature is not supported.
    Unsupported,
    /// A MAC operation failed.
    Mac {
        /// Underlying hash.
        hash: MacHash,
        /// Failure kind.
        kind: MacFailureKind,
    },
    /// A key-wrap operation failed.
    KeyWrap {
        /// Key-wrap suite.
        algorithm: KeyWrapAlgorithm,
        /// Direction.
        operation: KeyWrapOperation,
        /// Failure kind.
        kind: KeyWrapFailureKind,
    },
    /// A KDF operation failed.
    Kdf {
        /// KDF algorithm.
        algorithm: KdfAlgorithm,
        /// Parameter profile.
        profile: KdfProfile,
        /// Failure kind.
        kind: KdfFailureKind,
    },
    /// An HKDF operation failed.
    Hkdf {
        /// Underlying hash.
        hash: HkdfHash,
        /// Failure kind.
        kind: HkdfFailureKind,
    },
    /// A KEM operation failed.
    KemFailure {
        /// Failure kind.
        kind: KemFailureKind,
    },
    /// A key-agreement operation failed.
    KeyAgreementFailure {
        /// Failure kind.
        kind: KeyAgreementFailureKind,
    },
    /// A signature operation failed.
    Signature {
        /// Operation that failed.
        operation: SignatureOperation,
        /// Failure kind.
        kind: SignatureFailureKind,
    },
    /// Any other failure a primitive reports, carrying no typed detail.
    Other,
}

/// Error reported by algorithm-selected dispatch.
#[derive(Debug, Clone, Copy, PartialEq, Eq, Structural)]
pub enum AlgorithmError {
    /// The asymmetric algorithm is not supported.
    UnsupportedAlgorithm(Algorithm),
    /// The AEAD algorithm is not supported.
    UnsupportedAeadAlgorithm(AeadAlgorithm),
    /// The hash algorithm is not supported.
    UnsupportedHashAlgorithm(HashAlgorithm),
    /// The MAC algorithm is not supported.
    UnsupportedMacAlgorithm(MacAlgorithm),
    /// Key material for the algorithm was rejected.
    InvalidKey(Algorithm),
    /// A signature did not verify under the algorithm.
    SignatureInvalid(Algorithm),
    /// A primitive failure.
    Crypto(CryptoError),
    /// Any other dispatch failure, carrying no typed detail.
    Other,
}

/// Error reported by the HPKE protocol primitive.
#[derive(Debug, Clone, Copy, PartialEq, Eq, Structural)]
pub enum HpkeError {
    /// The KEM identifier is not supported.
    UnsupportedKem,
    /// The KDF identifier is not supported.
    UnsupportedKdf,
    /// The AEAD identifier is not supported.
    UnsupportedAead,
    /// The suite combination is not supported.
    UnsupportedSuite,
    /// The recipient public key was rejected.
    InvalidPublicKey,
    /// The recipient private key was rejected.
    InvalidPrivateKey,
    /// The encapsulated key was rejected.
    InvalidEncapsulatedKey,
    /// The ciphertext was rejected.
    InvalidCiphertext,
    /// The input keying material was rejected.
    InvalidInputKeyMaterial,
    /// The info string is too long.
    InvalidInfoLength,
    /// The exporter length is unacceptable.
    InvalidExporterLength,
    /// A checked length computation overflowed.
    LengthOverflow,
    /// The pre-shared key was rejected.
    InvalidPsk,
    /// The pre-shared key identifier was rejected.
    InvalidPskIdentifier,
    /// Caller-supplied deterministic randomness was rejected.
    InvalidRandomness,
    /// Authentication of the ciphertext failed.
    OpenFailed,
    /// No randomness could be obtained.
    RandomnessUnavailable,
    /// Sealing failed.
    SealFailed,
    /// Exporting failed.
    ExportFailed,
    /// Key generation failed.
    KeyGenerationFailed,
    /// Any other failure, carrying no typed detail.
    Other,
}

} // verus!
