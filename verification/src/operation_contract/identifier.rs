//! Algorithm identifiers carried by structured operation requests and results,
//! and their shared validation.

use vstd::prelude::*;

use super::wire_error::{invalid_parameter, CryptoWireError};

verus! {

/// AEAD algorithm as named on the wire.
#[derive(Debug, Clone, Copy, PartialEq, Eq, Hash, Structural)]
pub enum ProtoAeadAlgorithm {
    /// No algorithm named.
    Unspecified,
    /// AES-128-GCM.
    Aes128Gcm,
    /// AES-192-GCM.
    Aes192Gcm,
    /// AES-256-GCM.
    Aes256Gcm,
    /// AES-256-GCM-SIV.
    Aes256GcmSiv,
    /// ChaCha20-Poly1305.
    ChaCha20Poly1305,
    /// XChaCha20-Poly1305.
    XChaCha20Poly1305,
}

/// Hash algorithm as named on the wire.
#[derive(Debug, Clone, Copy, PartialEq, Eq, Hash, Structural)]
pub enum ProtoHashAlgorithm {
    /// No algorithm named.
    Unspecified,
    /// SHA-256.
    Sha2_256,
    /// SHA-384.
    Sha2_384,
    /// SHA-512.
    Sha2_512,
    /// SHA3-224.
    Sha3_224,
    /// SHA3-256.
    Sha3_256,
    /// SHA3-384.
    Sha3_384,
    /// SHA3-512.
    Sha3_512,
}

/// MAC algorithm as named on the wire.
#[derive(Debug, Clone, Copy, PartialEq, Eq, Hash, Structural)]
pub enum ProtoMacAlgorithm {
    /// No algorithm named.
    Unspecified,
    /// HMAC-SHA-256.
    HmacSha256,
    /// HMAC-SHA-384.
    HmacSha384,
    /// HMAC-SHA-512.
    HmacSha512,
}

/// KDF algorithm as named on the wire.
#[derive(Debug, Clone, Copy, PartialEq, Eq, Hash, Structural)]
pub enum ProtoKdfAlgorithm {
    /// No algorithm named.
    Unspecified,
    /// KMAC256.
    Kmac256,
    /// Argon2id.
    Argon2id,
    /// HKDF over SHA-256.
    HkdfSha256,
    /// HKDF over SHA-384.
    HkdfSha384,
    /// JWA Concat KDF over SHA-256.
    JwaConcatKdfSha256,
    /// PBKDF2 with HMAC-SHA-256.
    Pbkdf2HmacSha256,
    /// PBKDF2 with HMAC-SHA-512.
    Pbkdf2HmacSha512,
}

/// Key-wrap algorithm as named on the wire.
#[derive(Debug, Clone, Copy, PartialEq, Eq, Hash, Structural)]
pub enum ProtoKeyWrapAlgorithm {
    /// No algorithm named.
    Unspecified,
    /// AES-128-KW.
    Aes128Kw,
    /// AES-192-KW.
    Aes192Kw,
    /// AES-256-KW.
    Aes256Kw,
}

/// Signature algorithm as named on the wire.
#[derive(Debug, Clone, Copy, PartialEq, Eq, Hash, Structural)]
pub enum SignatureAlgorithm {
    /// No algorithm named.
    Unspecified,
    /// Ed25519.
    Ed25519,
    /// ECDSA over P-256.
    P256,
    /// ECDSA over P-384.
    P384,
    /// ECDSA over P-521.
    P521,
    /// ECDSA over secp256k1.
    Secp256k1,
    /// BIP-340 Schnorr over secp256k1 with SHA-256.
    Bip340SchnorrSecp256k1Sha256,
    /// ML-DSA-44.
    MlDsa44,
    /// ML-DSA-65.
    MlDsa65,
    /// ML-DSA-87.
    MlDsa87,
    /// SLH-DSA-SHA2-128s.
    SlhDsaSha2_128s,
    /// RSASSA-PKCS1-v1_5 with SHA-1.
    RsaPkcs1v15Sha1,
    /// RSASSA-PKCS1-v1_5 with SHA-256.
    RsaPkcs1v15Sha256,
    /// RSASSA-PKCS1-v1_5 with SHA-384.
    RsaPkcs1v15Sha384,
    /// RSASSA-PKCS1-v1_5 with SHA-512.
    RsaPkcs1v15Sha512,
    /// RSASSA-PSS with SHA-1 and MGF1-SHA-1.
    RsaPssSha1Mgf1Sha1,
    /// RSASSA-PSS with SHA-256 and MGF1-SHA-256.
    RsaPssSha256Mgf1Sha256,
    /// RSASSA-PSS with SHA-384 and MGF1-SHA-384.
    RsaPssSha384Mgf1Sha384,
    /// RSASSA-PSS with SHA-512 and MGF1-SHA-512.
    RsaPssSha512Mgf1Sha512,
}

/// Key-agreement algorithm as named on the wire.
#[derive(Debug, Clone, Copy, PartialEq, Eq, Hash, Structural)]
pub enum KeyAgreementAlgorithm {
    /// No algorithm named.
    Unspecified,
    /// X25519.
    X25519,
    /// ECDH over P-256.
    P256,
    /// ECDH over P-384.
    P384,
    /// ECDH over P-521.
    P521,
}

/// HPKE suite as named on the wire: the registered KEM, KDF, and AEAD
/// identifiers as received.
#[derive(Debug, Clone, Copy, PartialEq, Eq, Structural)]
pub struct HpkeSuiteIdentifier {
    /// KEM identifier.
    pub kem: i32,
    /// KDF identifier.
    pub kdf: i32,
    /// AEAD identifier.
    pub aead: i32,
}

/// The algorithm branch of an identifier. An enumerated value is the variant
/// received, or `None` for a number this contract does not know.
#[derive(Debug, Clone, Copy, PartialEq, Eq, Structural)]
pub enum AlgorithmBranch {
    /// An AEAD algorithm.
    Aead(Option<ProtoAeadAlgorithm>),
    /// A hash algorithm.
    Hash(Option<ProtoHashAlgorithm>),
    /// A MAC algorithm.
    Mac(Option<ProtoMacAlgorithm>),
    /// A KDF algorithm.
    Kdf(Option<ProtoKdfAlgorithm>),
    /// A key-wrap algorithm.
    KeyWrap(Option<ProtoKeyWrapAlgorithm>),
    /// A signature algorithm.
    Signature(Option<SignatureAlgorithm>),
    /// A key-agreement algorithm.
    KeyAgreement(Option<KeyAgreementAlgorithm>),
    /// An HPKE suite.
    HpkeSuite(HpkeSuiteIdentifier),
}

/// Algorithm identifier of a request or result.
#[derive(Debug, Clone, Copy, PartialEq, Eq, Structural)]
pub struct CryptoAlgorithmIdentifier {
    /// The named algorithm, when one is set.
    pub algorithm: Option<AlgorithmBranch>,
}

/// Branch of an identifier that is present and names an algorithm.
pub open spec fn spec_algorithm_branch(identifier: Option<CryptoAlgorithmIdentifier>) -> Option<
    AlgorithmBranch,
> {
    match identifier {
        Some(id) => id.algorithm,
        None => None,
    }
}

/// The algorithm branch of an identifier; an absent identifier, or one that
/// names no algorithm, is an invalid parameter.
pub fn algorithm_branch(identifier: &Option<CryptoAlgorithmIdentifier>) -> (outcome: Result<
    AlgorithmBranch,
    CryptoWireError,
>)
    ensures
        match spec_algorithm_branch(*identifier) {
            Some(branch) => outcome == Ok::<AlgorithmBranch, CryptoWireError>(branch),
            None => outcome == Err::<AlgorithmBranch, CryptoWireError>(
                super::wire_error::spec_invalid_parameter(),
            ),
        },
{
    match identifier {
        Some(id) => match id.algorithm {
            Some(branch) => Ok(branch),
            None => Err(invalid_parameter()),
        },
        None => Err(invalid_parameter()),
    }
}

} // verus!
