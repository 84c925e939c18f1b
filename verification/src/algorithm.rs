//! Algorithm and operation selectors shared by every primitive family.

use vstd::prelude::*;

verus! {

/// Authenticated-encryption algorithms.
#[derive(Debug, Clone, Copy, PartialEq, Eq, Hash, Structural)]
pub enum AeadAlgorithm {
    /// AES-128-GCM.
    Aes128Gcm,
    /// AES-192-GCM.
    Aes192Gcm,
    /// AES-256-GCM.
    Aes256Gcm,
    /// AES-256-GCM-SIV.
    Aes256GcmSiv,
    /// ChaCha20-Poly1305 (96-bit nonce).
    ChaCha20Poly1305,
    /// XChaCha20-Poly1305 (192-bit nonce).
    XChaCha20Poly1305,
}

/// Hash algorithms.
#[derive(Debug, Clone, Copy, PartialEq, Eq, Hash, Structural)]
pub enum HashAlgorithm {
    /// SHA-256.
    Sha2_256,
    /// SHA-384.
    Sha2_384,
    /// SHA-512.
    Sha2_512,
    /// SHA3-224.
    Sha3_224,
    /// SHA3-256.
    Sha3_256,
    /// SHA3-384.
    Sha3_384,
    /// SHA3-512.
    Sha3_512,
}

/// Message-authentication algorithms.
#[derive(Debug, Clone, Copy, PartialEq, Eq, Hash, Structural)]
pub enum MacAlgorithm {
    /// HMAC over SHA-256.
    HmacSha256,
    /// HMAC over SHA-384.
    HmacSha384,
    /// HMAC over SHA-512.
    HmacSha512,
}

/// Hash function underlying an HMAC computation, as reported in MAC errors.
#[derive(Debug, Clone, Copy, PartialEq, Eq, Hash, Structural)]
pub enum MacHash {
    /// SHA-256.
    Sha2_256,
    /// SHA-384.
    Sha2_384,
    /// SHA-512.
    Sha2_512,
}

/// RFC 3394 AES Key Wrap suites.
#[derive(Debug, Clone, Copy, PartialEq, Eq, Hash, Structural)]
pub enum KeyWrapAlgorithm {
    /// AES-128-KW.
    Aes128Kw,
    /// AES-192-KW.
    Aes192Kw,
    /// AES-256-KW.
    Aes256Kw,
}

/// Direction of a key-wrap operation, as reported in key-wrap errors.
#[derive(Debug, Clone, Copy, PartialEq, Eq, Hash, Structural)]
pub enum KeyWrapOperation {
    /// Wrapping plaintext key material.
    Wrap,
    /// Unwrapping wrapped key material.
    Unwrap,
}

/// Key-derivation algorithms reported in KDF errors.
#[derive(Debug, Clone, Copy, PartialEq, Eq, Hash, Structural)]
pub enum KdfAlgorithm {
    /// Argon2id password hashing.
    Argon2id,
    /// JWA Concat KDF.
    ConcatKdf,
    /// KMAC256 key derivation.
    Kmac256,
}

/// Reviewed KDF parameter profiles reported in KDF errors.
#[derive(Debug, Clone, Copy, PartialEq, Eq, Hash, Structural)]
pub enum KdfProfile {
    /// Argon2id version 1 cost profile.
    Argon2idV1,
    /// Argon2id version 2 cost profile.
    Argon2idV2,
    /// JWA ECDH-ES Concat KDF over SHA-256.
    JwaEcdhEsSha256,
    /// NIST SP 800-185 KMAC256.
    Sp800185Kmac256,
}

/// Hash function underlying an HKDF computation, as reported in HKDF errors.
#[derive(Debug, Clone, Copy, PartialEq, Eq, Hash, Structural)]
pub enum HkdfHash {
    /// SHA-256.
    Sha2_256,
    /// SHA-384.
    Sha2_384,
    /// SHA-512.
    Sha2_512,
    /// SHA3-256.
    Sha3_256,
}

/// Backend lane that executed an AEAD operation.
#[derive(Debug, Clone, Copy, PartialEq, Eq, Hash, Structural)]
pub enum AeadBackend {
    /// Portable native Rust backend.
    Native,
    /// WebAssembly backend.
    Wasm,
}

/// Signature operation reported in signature errors.
#[derive(Debug, Clone, Copy, PartialEq, Eq, Hash, Structural)]
pub enum SignatureOperation {
    /// Key generation or derivation.
    KeyManagement,
    /// Signing.
    Sign,
    /// Verification.
    Verify,
}

/// Asymmetric algorithm selector used by signature, key-agreement, and KEM
/// dispatch.
#[derive(Debug, Clone, Copy, PartialEq, Eq, Hash, Structural)]
pub enum Algorithm {
    /// Ed25519 signatures.
    Ed25519,
    /// NIST P-256 (ECDSA and ECDH).
    P256,
    /// NIST P-384 (ECDSA and ECDH).
    P384,
    /// NIST P-521 (ECDSA and ECDH).
    P521,
    /// secp256k1 ECDSA.
    Secp256k1,
    /// X25519 Diffie-Hellman.
    X25519,
    /// ML-DSA-44 signatures.
    MlDsa44,
    /// ML-DSA-65 signatures.
    MlDsa65,
    /// ML-DSA-87 signatures.
    MlDsa87,
    /// SLH-DSA-SHA2-128s signatures.
    SlhDsaSha2_128s,
    /// ML-KEM-512 key encapsulation.
    MlKem512,
    /// ML-KEM-768 key encapsulation.
    MlKem768,
    /// ML-KEM-1024 key encapsulation.
    MlKem1024,
    /// X-Wing hybrid KEM over X25519 and ML-KEM-768.
    XWing768,
}

/// HKDF suites selectable through the structured operation boundary.
#[derive(Debug, Clone, Copy, PartialEq, Eq, Hash, Structural)]
pub enum HkdfSuite {
    /// HKDF over SHA-256.
    Sha2_256,
    /// HKDF over SHA-384.
    Sha2_384,
}

impl HkdfSuite {
    /// Hash function underlying the suite.
    pub fn hash(self) -> (hash: HkdfHash)
        ensures
            hash == match self {
                HkdfSuite::Sha2_256 => HkdfHash::Sha2_256,
                HkdfSuite::Sha2_384 => HkdfHash::Sha2_384,
            },
    {
        match self {
            HkdfSuite::Sha2_256 => HkdfHash::Sha2_256,
            HkdfSuite::Sha2_384 => HkdfHash::Sha2_384,
        }
    }
}

/// Pseudorandom functions for PBKDF2.
#[derive(Debug, Clone, Copy, PartialEq, Eq, Hash, Structural)]
pub enum Pbkdf2Prf {
    /// HMAC-SHA-256.
    HmacSha256,
    /// HMAC-SHA-512.
    HmacSha512,
}

/// Message hashes for RSA signature verification.
#[derive(Debug, Clone, Copy, PartialEq, Eq, Hash, Structural)]
pub enum RsaHash {
    /// SHA-1.
    Sha1,
    /// SHA-256.
    Sha256,
    /// SHA-384.
    Sha384,
    /// SHA-512.
    Sha512,
}

/// DER container of an RSA public key.
#[derive(Debug, Clone, Copy, PartialEq, Eq, Hash, Structural)]
pub enum RsaPublicKeyDerEncoding {
    /// PKCS#1 `RSAPublicKey`.
    Pkcs1,
    /// X.509 `SubjectPublicKeyInfo`.
    Spki,
}

/// RSASSA-PSS verification parameters.
#[derive(Debug, Clone, Copy, PartialEq, Eq, Structural)]
pub struct RsaPssParams {
    /// Hash applied to the message.
    pub message_hash: RsaHash,
    /// Hash used by the MGF1 mask generation function.
    pub mgf1_hash: RsaHash,
    /// Salt length in bytes.
    pub salt_len: usize,
}

} // verus!
