//! Signature algorithm selection from request identifiers.

use vstd::prelude::*;

use super::identifier::{
    algorithm_branch, spec_algorithm_branch, AlgorithmBranch, CryptoAlgorithmIdentifier,
    SignatureAlgorithm,
};
use super::wire_error::{
    invalid_parameter, spec_invalid_parameter, spec_unsupported_algorithm, unsupported_algorithm,
    CryptoWireError,
};
use crate::algorithm::{Algorithm, RsaPublicKeyDerEncoding};

verus! {

/// Wire name of an RSA public-key DER container.
#[derive(Debug, Clone, Copy, PartialEq, Eq, Hash, Structural)]
pub enum ProtoRsaPublicKeyDerEncoding {
    /// No container named.
    Unspecified,
    /// PKCS#1 `RSAPublicKey`.
    Pkcs1,
    /// X.509 `SubjectPublicKeyInfo`.
    Spki,
}

/// Raw-key signature algorithm a wire name stands for. BIP-340 Schnorr and the
/// RSA suites have dedicated operations and stand for none, as does the
/// unspecified name.
pub open spec fn spec_core_signature(algorithm: SignatureAlgorithm) -> Option<Algorithm> {
    match algorithm {
        SignatureAlgorithm::Ed25519 => Some(Algorithm::Ed25519),
        SignatureAlgorithm::P256 => Some(Algorithm::P256),
        SignatureAlgorithm::P384 => Some(Algorithm::P384),
        SignatureAlgorithm::P521 => Some(Algorithm::P521),
        SignatureAlgorithm::Secp256k1 => Some(Algorithm::Secp256k1),
        SignatureAlgorithm::MlDsa44 => Some(Algorithm::MlDsa44),
        SignatureAlgorithm::MlDsa65 => Some(Algorithm::MlDsa65),
        SignatureAlgorithm::MlDsa87 => Some(Algorithm::MlDsa87),
        SignatureAlgorithm::SlhDsaSha2_128s => Some(Algorithm::SlhDsaSha2_128s),
        _ => None,
    }
}

/// Raw-key signature algorithm a wire name stands for.
pub fn core_signature_algorithm(algorithm: SignatureAlgorithm) -> (core: Option<Algorithm>)
    ensures
        core == spec_core_signature(algorithm),
{
    match algorithm {
        SignatureAlgorithm::Ed25519 => Some(Algorithm::Ed25519),
        SignatureAlgorithm::P256 => Some(Algorithm::P256),
        SignatureAlgorithm::P384 => Some(Algorithm::P384),
        SignatureAlgorithm::P521 => Some(Algorithm::P521),
        SignatureAlgorithm::Secp256k1 => Some(Algorithm::Secp256k1),
        SignatureAlgorithm::MlDsa44 => Some(Algorithm::MlDsa44),
        SignatureAlgorithm::MlDsa65 => Some(Algorithm::MlDsa65),
        SignatureAlgorithm::MlDsa87 => Some(Algorithm::MlDsa87),
        SignatureAlgorithm::SlhDsaSha2_128s => Some(Algorithm::SlhDsaSha2_128s),
        _ => None,
    }
}

/// Signature wire name a request identifier carries.
pub open spec fn spec_signature_value(identifier: Option<CryptoAlgorithmIdentifier>) -> Result<
    SignatureAlgorithm,
    CryptoWireError,
> {
    match spec_algorithm_branch(identifier) {
        Some(AlgorithmBranch::Signature(value)) => match value {
            Some(algorithm) => Ok(algorithm),
            None => Err(spec_unsupported_algorithm()),
        },
        _ => Err(spec_invalid_parameter()),
    }
}

/// Signature wire name a request identifier carries: a signature identifier
/// with an unknown number is unsupported; any other identifier is an invalid
/// parameter.
pub fn signature_algorithm_value(identifier: &Option<CryptoAlgorithmIdentifier>) -> (outcome:
    Result<SignatureAlgorithm, CryptoWireError>)
    ensures
        outcome == spec_signature_value(*identifier),
{
    match algorithm_branch(identifier)? {
        AlgorithmBranch::Signature(value) => match value {
            Some(algorithm) => Ok(algorithm),
            None => Err(unsupported_algorithm()),
        },
        _ => Err(invalid_parameter()),
    }
}

/// Raw-key signature algorithm a request identifier selects.
pub fn signature_algorithm(identifier: &Option<CryptoAlgorithmIdentifier>) -> (outcome: Result<
    Algorithm,
    CryptoWireError,
>)
    ensures
        outcome == match spec_signature_value(*identifier) {
            Ok(value) => match spec_core_signature(value) {
                Some(algorithm) => Ok::<Algorithm, CryptoWireError>(algorithm),
                None => Err(spec_unsupported_algorithm()),
            },
            Err(error) => Err(error),
        },
{
    let value = signature_algorithm_value(identifier)?;
    match core_signature_algorithm(value) {
        Some(algorithm) => Ok(algorithm),
        None => Err(unsupported_algorithm()),
    }
}

/// RSA public-key DER container a request names; an unspecified or unknown
/// container is an invalid parameter.
pub fn rsa_public_key_der_encoding(encoding: Option<ProtoRsaPublicKeyDerEncoding>) -> (outcome:
    Result<RsaPublicKeyDerEncoding, CryptoWireError>)
    ensures
        outcome == match encoding {
            Some(ProtoRsaPublicKeyDerEncoding::Pkcs1) => Ok::<
                RsaPublicKeyDerEncoding,
                CryptoWireError,
            >(RsaPublicKeyDerEncoding::Pkcs1),
            Some(ProtoRsaPublicKeyDerEncoding::Spki) => Ok(RsaPublicKeyDerEncoding::Spki),
            _ => Err(spec_invalid_parameter()),
        },
{
    match encoding {
        Some(ProtoRsaPublicKeyDerEncoding::Pkcs1) => Ok(RsaPublicKeyDerEncoding::Pkcs1),
        Some(ProtoRsaPublicKeyDerEncoding::Spki) => Ok(RsaPublicKeyDerEncoding::Spki),
        Some(ProtoRsaPublicKeyDerEncoding::Unspecified) | None => Err(invalid_parameter()),
    }
}

/// Identifier naming the signature algorithm.
pub fn signature_identifier(algorithm: SignatureAlgorithm) -> (identifier: CryptoAlgorithmIdentifier)
    ensures
        identifier == (CryptoAlgorithmIdentifier {
            algorithm: Some(AlgorithmBranch::Signature(Some(algorithm))),
        }),
{
    CryptoAlgorithmIdentifier { algorithm: Some(AlgorithmBranch::Signature(Some(algorithm))) }
}

} // verus!
