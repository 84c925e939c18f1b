//! Algorithm selection from request identifiers, and the identifiers results
//! carry.

use vstd::prelude::*;

use super::identifier::{
    algorithm_branch, spec_algorithm_branch, AlgorithmBranch, CryptoAlgorithmIdentifier,
    ProtoAeadAlgorithm, ProtoHashAlgorithm, ProtoKdfAlgorithm, ProtoKeyWrapAlgorithm,
    ProtoMacAlgorithm,
};
use super::wire_error::{
    invalid_parameter, spec_invalid_parameter, spec_unsupported_algorithm, unsupported_algorithm,
    CryptoWireError,
};
use crate::algorithm::{
    AeadAlgorithm, HashAlgorithm, HkdfSuite, KeyWrapAlgorithm, MacAlgorithm, Pbkdf2Prf,
};

verus! {

// ---------------------------------------------------------------------------
// Wire and semantic algorithm names
// ---------------------------------------------------------------------------

/// Semantic AEAD algorithm a wire name stands for; the unspecified name stands
/// for none.
pub open spec fn spec_core_aead(algorithm: ProtoAeadAlgorithm) -> Option<AeadAlgorithm> {
    match algorithm {
        ProtoAeadAlgorithm::Unspecified => None,
        ProtoAeadAlgorithm::Aes128Gcm => Some(AeadAlgorithm::Aes128Gcm),
        ProtoAeadAlgorithm::Aes192Gcm => Some(AeadAlgorithm::Aes192Gcm),
        ProtoAeadAlgorithm::Aes256Gcm => Some(AeadAlgorithm::Aes256Gcm),
        ProtoAeadAlgorithm::Aes256GcmSiv => Some(AeadAlgorithm::Aes256GcmSiv),
        ProtoAeadAlgorithm::ChaCha20Poly1305 => Some(AeadAlgorithm::ChaCha20Poly1305),
        ProtoAeadAlgorithm::XChaCha20Poly1305 => Some(AeadAlgorithm::XChaCha20Poly1305),
    }
}

/// Wire name of a semantic AEAD algorithm.
pub open spec fn spec_proto_aead(algorithm: AeadAlgorithm) -> ProtoAeadAlgorithm {
    match algorithm {
        AeadAlgorithm::Aes128Gcm => ProtoAeadAlgorithm::Aes128Gcm,
        AeadAlgorithm::Aes192Gcm => ProtoAeadAlgorithm::Aes192Gcm,
        AeadAlgorithm::Aes256Gcm => ProtoAeadAlgorithm::Aes256Gcm,
        AeadAlgorithm::Aes256GcmSiv => ProtoAeadAlgorithm::Aes256GcmSiv,
        AeadAlgorithm::ChaCha20Poly1305 => ProtoAeadAlgorithm::ChaCha20Poly1305,
        AeadAlgorithm::XChaCha20Poly1305 => ProtoAeadAlgorithm::XChaCha20Poly1305,
    }
}

/// Semantic hash algorithm a wire name stands for; the unspecified name stands
/// for none.
pub open spec fn spec_core_hash(algorithm: ProtoHashAlgorithm) -> Option<HashAlgorithm> {
    match algorithm {
        ProtoHashAlgorithm::Unspecified => None,
        ProtoHashAlgorithm::Sha2_256 => Some(HashAlgorithm::Sha2_256),
        ProtoHashAlgorithm::Sha2_384 => Some(HashAlgorithm::Sha2_384),
        ProtoHashAlgorithm::Sha2_512 => Some(HashAlgorithm::Sha2_512),
        ProtoHashAlgorithm::Sha3_224 => Some(HashAlgorithm::Sha3_224),
        ProtoHashAlgorithm::Sha3_256 => Some(HashAlgorithm::Sha3_256),
        ProtoHashAlgorithm::Sha3_384 => Some(HashAlgorithm::Sha3_384),
        ProtoHashAlgorithm::Sha3_512 => Some(HashAlgorithm::Sha3_512),
    }
}

/// Wire name of a semantic hash algorithm.
pub open spec fn spec_proto_hash(algorithm: HashAlgorithm) -> ProtoHashAlgorithm {
    match algorithm {
        HashAlgorithm::Sha2_256 => ProtoHashAlgorithm::Sha2_256,
        HashAlgorithm::Sha2_384 => ProtoHashAlgorithm::Sha2_384,
        HashAlgorithm::Sha2_512 => ProtoHashAlgorithm::Sha2_512,
        HashAlgorithm::Sha3_224 => ProtoHashAlgorithm::Sha3_224,
        HashAlgorithm::Sha3_256 => ProtoHashAlgorithm::Sha3_256,
        HashAlgorithm::Sha3_384 => ProtoHashAlgorithm::Sha3_384,
        HashAlgorithm::Sha3_512 => ProtoHashAlgorithm::Sha3_512,
    }
}

/// Semantic MAC algorithm a wire name stands for; the unspecified name stands
/// for none.
pub open spec fn spec_core_mac(algorithm: ProtoMacAlgorithm) -> Option<MacAlgorithm> {
    match algorithm {
        ProtoMacAlgorithm::Unspecified => None,
        ProtoMacAlgorithm::HmacSha256 => Some(MacAlgorithm::HmacSha256),
        ProtoMacAlgorithm::HmacSha384 => Some(MacAlgorithm::HmacSha384),
        ProtoMacAlgorithm::HmacSha512 => Some(MacAlgorithm::HmacSha512),
    }
}

/// Wire name of a semantic MAC algorithm.
pub open spec fn spec_proto_mac(algorithm: MacAlgorithm) -> ProtoMacAlgorithm {
    match algorithm {
        MacAlgorithm::HmacSha256 => ProtoMacAlgorithm::HmacSha256,
        MacAlgorithm::HmacSha384 => ProtoMacAlgorithm::HmacSha384,
        MacAlgorithm::HmacSha512 => ProtoMacAlgorithm::HmacSha512,
    }
}

/// Semantic key-wrap algorithm a wire name stands for; the unspecified name
/// stands for none.
pub open spec fn spec_core_key_wrap(algorithm: ProtoKeyWrapAlgorithm) -> Option<KeyWrapAlgorithm> {
    match algorithm {
        ProtoKeyWrapAlgorithm::Unspecified => None,
        ProtoKeyWrapAlgorithm::Aes128Kw => Some(KeyWrapAlgorithm::Aes128Kw),
        ProtoKeyWrapAlgorithm::Aes192Kw => Some(KeyWrapAlgorithm::Aes192Kw),
        ProtoKeyWrapAlgorithm::Aes256Kw => Some(KeyWrapAlgorithm::Aes256Kw),
    }
}

/// Wire name of a semantic key-wrap algorithm.
pub open spec fn spec_proto_key_wrap(algorithm: KeyWrapAlgorithm) -> ProtoKeyWrapAlgorithm {
    match algorithm {
        KeyWrapAlgorithm::Aes128Kw => ProtoKeyWrapAlgorithm::Aes128Kw,
        KeyWrapAlgorithm::Aes192Kw => ProtoKeyWrapAlgorithm::Aes192Kw,
        KeyWrapAlgorithm::Aes256Kw => ProtoKeyWrapAlgorithm::Aes256Kw,
    }
}

/// Semantic AEAD algorithm a wire name stands for.
pub fn core_aead_algorithm(algorithm: ProtoAeadAlgorithm) -> (core: Option<AeadAlgorithm>)
    ensures
        core == spec_core_aead(algorithm),
{
    match algorithm {
        ProtoAeadAlgorithm::Unspecified => None,
        ProtoAeadAlgorithm::Aes128Gcm => Some(AeadAlgorithm::Aes128Gcm),
        ProtoAeadAlgorithm::Aes192Gcm => Some(AeadAlgorithm::Aes192Gcm),
        ProtoAeadAlgorithm::Aes256Gcm => Some(AeadAlgorithm::Aes256Gcm),
        ProtoAeadAlgorithm::Aes256GcmSiv => Some(AeadAlgorithm::Aes256GcmSiv),
        ProtoAeadAlgorithm::ChaCha20Poly1305 => Some(AeadAlgorithm::ChaCha20Poly1305),
        ProtoAeadAlgorithm::XChaCha20Poly1305 => Some(AeadAlgorithm::XChaCha20Poly1305),
    }
}

/// Wire name of a semantic AEAD algorithm.
pub fn proto_aead_algorithm(algorithm: AeadAlgorithm) -> (proto: ProtoAeadAlgorithm)
    ensures
        proto == spec_proto_aead(algorithm),
{
    match algorithm {
        AeadAlgorithm::Aes128Gcm => ProtoAeadAlgorithm::Aes128Gcm,
        AeadAlgorithm::Aes192Gcm => ProtoAeadAlgorithm::Aes192Gcm,
        AeadAlgorithm::Aes256Gcm => ProtoAeadAlgorithm::Aes256Gcm,
        AeadAlgorithm::Aes256GcmSiv => ProtoAeadAlgorithm::Aes256GcmSiv,
        AeadAlgorithm::ChaCha20Poly1305 => ProtoAeadAlgorithm::ChaCha20Poly1305,
        AeadAlgorithm::XChaCha20Poly1305 => ProtoAeadAlgorithm::XChaCha20Poly1305,
    }
}

/// Semantic hash algorithm a wire name stands for.
pub fn core_hash_algorithm(algorithm: ProtoHashAlgorithm) -> (core: Option<HashAlgorithm>)
    ensures
        core == spec_core_hash(algorithm),
{
    match algorithm {
        ProtoHashAlgorithm::Unspecified => None,
        ProtoHashAlgorithm::Sha2_256 => Some(HashAlgorithm::Sha2_256),
        ProtoHashAlgorithm::Sha2_384 => Some(HashAlgorithm::Sha2_384),
        ProtoHashAlgorithm::Sha2_512 => Some(HashAlgorithm::Sha2_512),
        ProtoHashAlgorithm::Sha3_224 => Some(HashAlgorithm::Sha3_224),
        ProtoHashAlgorithm::Sha3_256 => Some(HashAlgorithm::Sha3_256),
        ProtoHashAlgorithm::Sha3_384 => Some(HashAlgorithm::Sha3_384),
        ProtoHashAlgorithm::Sha3_512 => Some(HashAlgorithm::Sha3_512),
    }
}

/// Wire name of a semantic hash algorithm.
pub fn proto_hash_algorithm(algorithm: HashAlgorithm) -> (proto: ProtoHashAlgorithm)
    ensures
        proto == spec_proto_hash(algorithm),
{
    match algorithm {
        HashAlgorithm::Sha2_256 => ProtoHashAlgorithm::Sha2_256,
        HashAlgorithm::Sha2_384 => ProtoHashAlgorithm::Sha2_384,
        HashAlgorithm::Sha2_512 => ProtoHashAlgorithm::Sha2_512,
        HashAlgorithm::Sha3_224 => ProtoHashAlgorithm::Sha3_224,
        HashAlgorithm::Sha3_256 => ProtoHashAlgorithm::Sha3_256,
        HashAlgorithm::Sha3_384 => ProtoHashAlgorithm::Sha3_384,
        HashAlgorithm::Sha3_512 => ProtoHashAlgorithm::Sha3_512,
    }
}

/// Wire name of a semantic MAC algorithm.
pub fn proto_mac_algorithm(algorithm: MacAlgorithm) -> (proto: ProtoMacAlgorithm)
    ensures
        proto == spec_proto_mac(algorithm),
{
    match algorithm {
        MacAlgorithm::HmacSha256 => ProtoMacAlgorithm::HmacSha256,
        MacAlgorithm::HmacSha384 => ProtoMacAlgorithm::HmacSha384,
        MacAlgorithm::HmacSha512 => ProtoMacAlgorithm::HmacSha512,
    }
}

/// Wire name of a semantic key-wrap algorithm.
pub fn proto_key_wrap_algorithm(algorithm: KeyWrapAlgorithm) -> (proto: ProtoKeyWrapAlgorithm)
    ensures
        proto == spec_proto_key_wrap(algorithm),
{
    match algorithm {
        KeyWrapAlgorithm::Aes128Kw => ProtoKeyWrapAlgorithm::Aes128Kw,
        KeyWrapAlgorithm::Aes192Kw => ProtoKeyWrapAlgorithm::Aes192Kw,
        KeyWrapAlgorithm::Aes256Kw => ProtoKeyWrapAlgorithm::Aes256Kw,
    }
}

/// Wire name of the PBKDF2 algorithm with the given pseudorandom function.
pub fn proto_pbkdf2_algorithm(prf: Pbkdf2Prf) -> (proto: ProtoKdfAlgorithm)
    ensures
        proto == match prf {
            Pbkdf2Prf::HmacSha256 => ProtoKdfAlgorithm::Pbkdf2HmacSha256,
            Pbkdf2Prf::HmacSha512 => ProtoKdfAlgorithm::Pbkdf2HmacSha512,
        },
{
    match prf {
        Pbkdf2Prf::HmacSha256 => ProtoKdfAlgorithm::Pbkdf2HmacSha256,
        Pbkdf2Prf::HmacSha512 => ProtoKdfAlgorithm::Pbkdf2HmacSha512,
    }
}

// ---------------------------------------------------------------------------
// Selection from request identifiers
// ---------------------------------------------------------------------------

/// Selection from an enumerated wire value: an unknown number, or a name that
/// stands for no semantic algorithm, is an unsupported algorithm.
pub open spec fn spec_select<P, A>(value: Option<P>, core: spec_fn(P) -> Option<A>) -> Result<
    A,
    CryptoWireError,
> {
    match value {
        Some(p) => match core(p) {
            Some(a) => Ok(a),
            None => Err(spec_unsupported_algorithm()),
        },
        None => Err(spec_unsupported_algorithm()),
    }
}

/// AEAD algorithm a request identifier selects.
pub open spec fn spec_aead_selection(identifier: Option<CryptoAlgorithmIdentifier>) -> Result<
    AeadAlgorithm,
    CryptoWireError,
> {
    match spec_algorithm_branch(identifier) {
        Some(AlgorithmBranch::Aead(value)) => spec_select(value, |p| spec_core_aead(p)),
        _ => Err(spec_invalid_parameter()),
    }
}

/// Hash algorithm a request identifier selects.
pub open spec fn spec_hash_selection(identifier: Option<CryptoAlgorithmIdentifier>) -> Result<
    HashAlgorithm,
    CryptoWireError,
> {
    match spec_algorithm_branch(identifier) {
        Some(AlgorithmBranch::Hash(value)) => spec_select(value, |p| spec_core_hash(p)),
        _ => Err(spec_invalid_parameter()),
    }
}

/// MAC algorithm a request identifier selects.
pub open spec fn spec_mac_selection(identifier: Option<CryptoAlgorithmIdentifier>) -> Result<
    MacAlgorithm,
    CryptoWireError,
> {
    match spec_algorithm_branch(identifier) {
        Some(AlgorithmBranch::Mac(value)) => spec_select(value, |p| spec_core_mac(p)),
        _ => Err(spec_invalid_parameter()),
    }
}

/// Key-wrap algorithm a request identifier selects.
pub open spec fn spec_key_wrap_selection(identifier: Option<CryptoAlgorithmIdentifier>) -> Result<
    KeyWrapAlgorithm,
    CryptoWireError,
> {
    match spec_algorithm_branch(identifier) {
        Some(AlgorithmBranch::KeyWrap(value)) => spec_select(value, |p| spec_core_key_wrap(p)),
        _ => Err(spec_invalid_parameter()),
    }
}

/// Outcome of requiring that a request identifier names one exact KDF: a KDF
/// identifier naming another (or an unknown) KDF is unsupported; any other
/// identifier is an invalid parameter.
pub open spec fn spec_kdf_requirement(
    identifier: Option<CryptoAlgorithmIdentifier>,
    expected: ProtoKdfAlgorithm,
) -> Result<(), CryptoWireError> {
    match spec_algorithm_branch(identifier) {
        Some(AlgorithmBranch::Kdf(value)) => if value == Some(expected) {
            Ok(())
        } else {
            Err(spec_unsupported_algorithm())
        },
        _ => Err(spec_invalid_parameter()),
    }
}

/// HKDF suite (and its wire name) a request identifier selects.
pub open spec fn spec_hkdf_selection(identifier: Option<CryptoAlgorithmIdentifier>) -> Result<
    (HkdfSuite, ProtoKdfAlgorithm),
    CryptoWireError,
> {
    match spec_algorithm_branch(identifier) {
        Some(AlgorithmBranch::Kdf(value)) => match value {
            Some(ProtoKdfAlgorithm::HkdfSha256) => Ok(
                (HkdfSuite::Sha2_256, ProtoKdfAlgorithm::HkdfSha256),
            ),
            Some(ProtoKdfAlgorithm::HkdfSha384) => Ok(
                (HkdfSuite::Sha2_384, ProtoKdfAlgorithm::HkdfSha384),
            ),
            _ => Err(spec_unsupported_algorithm()),
        },
        _ => Err(spec_invalid_parameter()),
    }
}

/// PBKDF2 pseudorandom function a request identifier selects.
pub open spec fn spec_pbkdf2_selection(identifier: Option<CryptoAlgorithmIdentifier>) -> Result<
    Pbkdf2Prf,
    CryptoWireError,
> {
    match spec_algorithm_branch(identifier) {
        Some(AlgorithmBranch::Kdf(value)) => match value {
            Some(ProtoKdfAlgorithm::Pbkdf2HmacSha256) => Ok(Pbkdf2Prf::HmacSha256),
            Some(ProtoKdfAlgorithm::Pbkdf2HmacSha512) => Ok(Pbkdf2Prf::HmacSha512),
            _ => Err(spec_unsupported_algorithm()),
        },
        _ => Err(spec_invalid_parameter()),
    }
}

/// AEAD algorithm a request identifier selects.
pub fn aead_algorithm(identifier: &Option<CryptoAlgorithmIdentifier>) -> (outcome: Result<
    AeadAlgorithm,
    CryptoWireError,
>)
    ensures
        outcome == spec_aead_selection(*identifier),
{
    match algorithm_branch(identifier)? {
        AlgorithmBranch::Aead(value) => match value {
            Some(proto) => match core_aead_algorithm(proto) {
                Some(algorithm) => Ok(algorithm),
                None => Err(unsupported_algorithm()),
            },
            None => Err(unsupported_algorithm()),
        },
        _ => Err(invalid_parameter()),
    }
}

/// Hash algorithm a request identifier selects.
pub fn hash_algorithm(identifier: &Option<CryptoAlgorithmIdentifier>) -> (outcome: Result<
    HashAlgorithm,
    CryptoWireError,
>)
    ensures
        outcome == spec_hash_selection(*identifier),
{
    match algorithm_branch(identifier)? {
        AlgorithmBranch::Hash(value) => match value {
            Some(proto) => match core_hash_algorithm(proto) {
                Some(algorithm) => Ok(algorithm),
                None => Err(unsupported_algorithm()),
            },
            None => Err(unsupported_algorithm()),
        },
        _ => Err(invalid_parameter()),
    }
}

/// MAC algorithm a request identifier selects.
pub fn mac_algorithm(identifier: &Option<CryptoAlgorithmIdentifier>) -> (outcome: Result<
    MacAlgorithm,
    CryptoWireError,
>)
    ensures
        outcome == spec_mac_selection(*identifier),
{
    match algorithm_branch(identifier)? {
        AlgorithmBranch::Mac(value) => match value {
            Some(ProtoMacAlgorithm::HmacSha256) => Ok(MacAlgorithm::HmacSha256),
            Some(ProtoMacAlgorithm::HmacSha384) => Ok(MacAlgorithm::HmacSha384),
            Some(ProtoMacAlgorithm::HmacSha512) => Ok(MacAlgorithm::HmacSha512),
            Some(ProtoMacAlgorithm::Unspecified) | None => Err(unsupported_algorithm()),
        },
        _ => Err(invalid_parameter()),
    }
}

/// Key-wrap algorithm a request identifier selects.
pub fn key_wrap_algorithm(identifier: &Option<CryptoAlgorithmIdentifier>) -> (outcome: Result<
    KeyWrapAlgorithm,
    CryptoWireError,
>)
    ensures
        outcome == spec_key_wrap_selection(*identifier),
{
    match algorithm_branch(identifier)? {
        AlgorithmBranch::KeyWrap(value) => match value {
            Some(ProtoKeyWrapAlgorithm::Aes128Kw) => Ok(KeyWrapAlgorithm::Aes128Kw),
            Some(ProtoKeyWrapAlgorithm::Aes192Kw) => Ok(KeyWrapAlgorithm::Aes192Kw),
            Some(ProtoKeyWrapAlgorithm::Aes256Kw) => Ok(KeyWrapAlgorithm::Aes256Kw),
            Some(ProtoKeyWrapAlgorithm::Unspecified) | None => Err(unsupported_algorithm()),
        },
        _ => Err(invalid_parameter()),
    }
}

/// Requires that a request identifier names exactly the expected KDF.
fn require_kdf(identifier: &Option<CryptoAlgorithmIdentifier>, expected: ProtoKdfAlgorithm) -> (outcome:
    Result<(), CryptoWireError>)
    ensures
        outcome == spec_kdf_requirement(*identifier, expected),
        outcome is Ok <==> *identifier == Some(
            CryptoAlgorithmIdentifier { algorithm: Some(AlgorithmBranch::Kdf(Some(expected))) },
        ),
{
    match algorithm_branch(identifier)? {
        AlgorithmBranch::Kdf(value) => match value {
            Some(named) => if named == expected {
                Ok(())
            } else {
                Err(unsupported_algorithm())
            },
            None => Err(unsupported_algorithm()),
        },
        _ => Err(invalid_parameter()),
    }
}

/// Requires that a request identifier names KMAC256.
pub fn require_kmac256(identifier: &Option<CryptoAlgorithmIdentifier>) -> (outcome: Result<
    (),
    CryptoWireError,
>)
    ensures
        outcome == spec_kdf_requirement(*identifier, ProtoKdfAlgorithm::Kmac256),
        outcome is Ok <==> *identifier == Some(
            CryptoAlgorithmIdentifier {
                algorithm: Some(AlgorithmBranch::Kdf(Some(ProtoKdfAlgorithm::Kmac256))),
            },
        ),
{
    require_kdf(identifier, ProtoKdfAlgorithm::Kmac256)
}

/// Requires that a request identifier names Argon2id.
pub fn require_argon2id(identifier: &Option<CryptoAlgorithmIdentifier>) -> (outcome: Result<
    (),
    CryptoWireError,
>)
    ensures
        outcome == spec_kdf_requirement(*identifier, ProtoKdfAlgorithm::Argon2id),
        outcome is Ok <==> *identifier == Some(
            CryptoAlgorithmIdentifier {
                algorithm: Some(AlgorithmBranch::Kdf(Some(ProtoKdfAlgorithm::Argon2id))),
            },
        ),
{
    require_kdf(identifier, ProtoKdfAlgorithm::Argon2id)
}

/// Requires that a request identifier names the JWA Concat KDF over SHA-256.
pub fn require_jwa_concat_kdf_sha256(identifier: &Option<CryptoAlgorithmIdentifier>) -> (outcome:
    Result<(), CryptoWireError>)
    ensures
        outcome == spec_kdf_requirement(*identifier, ProtoKdfAlgorithm::JwaConcatKdfSha256),
        outcome is Ok <==> *identifier == Some(
            CryptoAlgorithmIdentifier {
                algorithm: Some(AlgorithmBranch::Kdf(Some(ProtoKdfAlgorithm::JwaConcatKdfSha256))),
            },
        ),
{
    require_kdf(identifier, ProtoKdfAlgorithm::JwaConcatKdfSha256)
}

/// HKDF suite, with its wire name, a request identifier selects.
pub fn hkdf_suite(identifier: &Option<CryptoAlgorithmIdentifier>) -> (outcome: Result<
    (HkdfSuite, ProtoKdfAlgorithm),
    CryptoWireError,
>)
    ensures
        outcome == spec_hkdf_selection(*identifier),
{
    match algorithm_branch(identifier)? {
        AlgorithmBranch::Kdf(value) => match value {
            Some(ProtoKdfAlgorithm::HkdfSha256) => Ok(
                (HkdfSuite::Sha2_256, ProtoKdfAlgorithm::HkdfSha256),
            ),
            Some(ProtoKdfAlgorithm::HkdfSha384) => Ok(
                (HkdfSuite::Sha2_384, ProtoKdfAlgorithm::HkdfSha384),
            ),
            _ => Err(unsupported_algorithm()),
        },
        _ => Err(invalid_parameter()),
    }
}

/// PBKDF2 pseudorandom function a request identifier selects.
pub fn pbkdf2_prf(identifier: &Option<CryptoAlgorithmIdentifier>) -> (outcome: Result<
    Pbkdf2Prf,
    CryptoWireError,
>)
    ensures
        outcome == spec_pbkdf2_selection(*identifier),
{
    match algorithm_branch(identifier)? {
        AlgorithmBranch::Kdf(value) => match value {
            Some(ProtoKdfAlgorithm::Pbkdf2HmacSha256) => Ok(Pbkdf2Prf::HmacSha256),
            Some(ProtoKdfAlgorithm::Pbkdf2HmacSha512) => Ok(Pbkdf2Prf::HmacSha512),
            _ => Err(unsupported_algorithm()),
        },
        _ => Err(invalid_parameter()),
    }
}

// ---------------------------------------------------------------------------
// Identifiers of results
// ---------------------------------------------------------------------------

/// Identifier naming the AEAD algorithm.
pub fn aead_identifier(algorithm: ProtoAeadAlgorithm) -> (identifier: CryptoAlgorithmIdentifier)
    ensures
        identifier == (CryptoAlgorithmIdentifier {
            algorithm: Some(AlgorithmBranch::Aead(Some(algorithm))),
        }),
{
    CryptoAlgorithmIdentifier { algorithm: Some(AlgorithmBranch::Aead(Some(algorithm))) }
}

/// Identifier naming the hash algorithm.
pub fn hash_identifier(algorithm: ProtoHashAlgorithm) -> (identifier: CryptoAlgorithmIdentifier)
    ensures
        identifier == (CryptoAlgorithmIdentifier {
            algorithm: Some(AlgorithmBranch::Hash(Some(algorithm))),
        }),
{
    CryptoAlgorithmIdentifier { algorithm: Some(AlgorithmBranch::Hash(Some(algorithm))) }
}

/// Identifier naming the MAC algorithm.
pub fn mac_identifier(algorithm: ProtoMacAlgorithm) -> (identifier: CryptoAlgorithmIdentifier)
    ensures
        identifier == (CryptoAlgorithmIdentifier {
            algorithm: Some(AlgorithmBranch::Mac(Some(algorithm))),
        }),
{
    CryptoAlgorithmIdentifier { algorithm: Some(AlgorithmBranch::Mac(Some(algorithm))) }
}

/// Identifier naming the KDF algorithm.
pub fn kdf_identifier(algorithm: ProtoKdfAlgorithm) -> (identifier: CryptoAlgorithmIdentifier)
    ensures
        identifier == (CryptoAlgorithmIdentifier {
            algorithm: Some(AlgorithmBranch::Kdf(Some(algorithm))),
        }),
{
    CryptoAlgorithmIdentifier { algorithm: Some(AlgorithmBranch::Kdf(Some(algorithm))) }
}

/// Identifier naming the semantic key-wrap algorithm.
pub fn key_wrap_identifier(algorithm: KeyWrapAlgorithm) -> (identifier: CryptoAlgorithmIdentifier)
    ensures
        identifier == (CryptoAlgorithmIdentifier {
            algorithm: Some(AlgorithmBranch::KeyWrap(Some(spec_proto_key_wrap(algorithm)))),
        }),
{
    CryptoAlgorithmIdentifier {
        algorithm: Some(AlgorithmBranch::KeyWrap(Some(proto_key_wrap_algorithm(algorithm)))),
    }
}

} // verus!
