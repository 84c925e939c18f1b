//! Signature-specific request decisions: BIP-340 routing and the RSA
//! verification suites.

use vstd::prelude::*;

use super::identifier::{AlgorithmBranch, CryptoAlgorithmIdentifier, SignatureAlgorithm};
use super::signature_algorithms::{
    core_signature_algorithm, rsa_public_key_der_encoding, signature_algorithm_value,
    spec_core_signature, spec_signature_value, ProtoRsaPublicKeyDerEncoding,
};
use super::wire_error::{
    spec_invalid_parameter, spec_unsupported_algorithm, unsupported_algorithm, CryptoWireError,
};
use crate::algorithm::{Algorithm, RsaHash, RsaPssParams, RsaPublicKeyDerEncoding};

verus! {

/// SHA-1 digest length in bytes.
pub const RSA_SHA1_DIGEST_LEN: usize = 20;
/// SHA-256 digest length in bytes.
pub const RSA_SHA256_DIGEST_LEN: usize = 32;
/// SHA-384 digest length in bytes.
pub const RSA_SHA384_DIGEST_LEN: usize = 48;
/// SHA-512 digest length in bytes.
pub const RSA_SHA512_DIGEST_LEN: usize = 64;

/// RSA signature scheme and its parameters.
#[derive(Debug, Clone, Copy, PartialEq, Eq, Structural)]
pub enum RsaVerificationSuite {
    /// RSASSA-PKCS1-v1_5 with the given message hash.
    Pkcs1v15 {
        /// Message hash.
        hash: RsaHash,
    },
    /// RSASSA-PSS with the given parameters.
    Pss {
        /// PSS parameters.
        params: RsaPssParams,
    },
}

/// Whether the wire name is BIP-340 Schnorr, which key management, signing,
/// and verification route to their dedicated x-only operations.
pub fn is_bip340(algorithm: SignatureAlgorithm) -> (bip340: bool)
    ensures
        bip340 == (algorithm == SignatureAlgorithm::Bip340SchnorrSecp256k1Sha256),
{
    match algorithm {
        SignatureAlgorithm::Bip340SchnorrSecp256k1Sha256 => true,
        _ => false,
    }
}

/// PSS parameters that use one hash for the message and for MGF1, with a salt
/// of the given length.
pub fn rsa_pss_params(hash: RsaHash, salt_len: usize) -> (params: RsaPssParams)
    ensures
        params == (RsaPssParams { message_hash: hash, mgf1_hash: hash, salt_len }),
{
    RsaPssParams { message_hash: hash, mgf1_hash: hash, salt_len }
}

/// PSS parameters of the suite with the given hash: the salt is as long as the
/// hash output.
pub open spec fn spec_pss(hash: RsaHash, salt_len: usize) -> RsaVerificationSuite {
    RsaVerificationSuite::Pss {
        params: RsaPssParams { message_hash: hash, mgf1_hash: hash, salt_len },
    }
}

/// RSA verification suite a signature wire name selects.
pub open spec fn spec_rsa_verification_suite(algorithm: SignatureAlgorithm) -> Result<
    RsaVerificationSuite,
    CryptoWireError,
> {
    match algorithm {
        SignatureAlgorithm::RsaPkcs1v15Sha1 => Ok(
            RsaVerificationSuite::Pkcs1v15 { hash: RsaHash::Sha1 },
        ),
        SignatureAlgorithm::RsaPkcs1v15Sha256 => Ok(
            RsaVerificationSuite::Pkcs1v15 { hash: RsaHash::Sha256 },
        ),
        SignatureAlgorithm::RsaPkcs1v15Sha384 => Ok(
            RsaVerificationSuite::Pkcs1v15 { hash: RsaHash::Sha384 },
        ),
        SignatureAlgorithm::RsaPkcs1v15Sha512 => Ok(
            RsaVerificationSuite::Pkcs1v15 { hash: RsaHash::Sha512 },
        ),
        SignatureAlgorithm::RsaPssSha1Mgf1Sha1 => Ok(spec_pss(RsaHash::Sha1, 20)),
        SignatureAlgorithm::RsaPssSha256Mgf1Sha256 => Ok(spec_pss(RsaHash::Sha256, 32)),
        SignatureAlgorithm::RsaPssSha384Mgf1Sha384 => Ok(spec_pss(RsaHash::Sha384, 48)),
        SignatureAlgorithm::RsaPssSha512Mgf1Sha512 => Ok(spec_pss(RsaHash::Sha512, 64)),
        _ => Err(spec_unsupported_algorithm()),
    }
}

/// RSA verification suite a signature wire name selects; every non-RSA name
/// is unsupported here.
pub fn rsa_verification_suite(algorithm: SignatureAlgorithm) -> (outcome: Result<
    RsaVerificationSuite,
    CryptoWireError,
>)
    ensures
        outcome == spec_rsa_verification_suite(algorithm),
{
    let suite = match algorithm {
        SignatureAlgorithm::RsaPkcs1v15Sha1 => RsaVerificationSuite::Pkcs1v15 {
            hash: RsaHash::Sha1,
        },
        SignatureAlgorithm::RsaPkcs1v15Sha256 => RsaVerificationSuite::Pkcs1v15 {
            hash: RsaHash::Sha256,
        },
        SignatureAlgorithm::RsaPkcs1v15Sha384 => RsaVerificationSuite::Pkcs1v15 {
            hash: RsaHash::Sha384,
        },
        SignatureAlgorithm::RsaPkcs1v15Sha512 => RsaVerificationSuite::Pkcs1v15 {
            hash: RsaHash::Sha512,
        },
        SignatureAlgorithm::RsaPssSha1Mgf1Sha1 => RsaVerificationSuite::Pss {
            params: rsa_pss_params(RsaHash::Sha1, RSA_SHA1_DIGEST_LEN),
        },
        SignatureAlgorithm::RsaPssSha256Mgf1Sha256 => RsaVerificationSuite::Pss {
            params: rsa_pss_params(RsaHash::Sha256, RSA_SHA256_DIGEST_LEN),
        },
        SignatureAlgorithm::RsaPssSha384Mgf1Sha384 => RsaVerificationSuite::Pss {
            params: rsa_pss_params(RsaHash::Sha384, RSA_SHA384_DIGEST_LEN),
        },
        SignatureAlgorithm::RsaPssSha512Mgf1Sha512 => RsaVerificationSuite::Pss {
            params: rsa_pss_params(RsaHash::Sha512, RSA_SHA512_DIGEST_LEN),
        },
        _ => return Err(unsupported_algorithm()),
    };
    Ok(suite)
}

/// Operation a signature key-management or verification request is routed
/// to.
#[derive(Debug, Clone, Copy, PartialEq, Eq, Structural)]
pub enum SignatureRoute {
    /// The dedicated BIP-340 Schnorr x-only operation.
    Bip340,
    /// The raw-key operation of the given algorithm.
    Raw(Algorithm),
}

/// Route a signature request identifier selects, together with the wire name
/// it carries.
pub open spec fn spec_signature_route(identifier: Option<CryptoAlgorithmIdentifier>) -> Result<
    (SignatureAlgorithm, SignatureRoute),
    CryptoWireError,
> {
    match spec_signature_value(identifier) {
        Ok(value) => if value == SignatureAlgorithm::Bip340SchnorrSecp256k1Sha256 {
            Ok((value, SignatureRoute::Bip340))
        } else {
            match spec_core_signature(value) {
                Some(algorithm) => Ok((value, SignatureRoute::Raw(algorithm))),
                None => Err(spec_unsupported_algorithm()),
            }
        },
        Err(error) => Err(error),
    }
}

/// Routes a signature key-generation, key-derivation, or verification request:
/// BIP-340 Schnorr goes to its x-only operation, every raw-key algorithm to the
/// raw-key operation, and the RSA suites and the unspecified name are
/// unsupported here. The wire name is returned for the result's identifier.
pub fn signature_route(identifier: &Option<CryptoAlgorithmIdentifier>) -> (outcome: Result<
    (SignatureAlgorithm, SignatureRoute),
    CryptoWireError,
>)
    ensures
        outcome == spec_signature_route(*identifier),
{
    let value = signature_algorithm_value(identifier)?;
    if is_bip340(value) {
        return Ok((value, SignatureRoute::Bip340));
    }
    match core_signature_algorithm(value) {
        Some(algorithm) => Ok((value, SignatureRoute::Raw(algorithm))),
        None => Err(unsupported_algorithm()),
    }
}

/// Everything an RSA verification request needs before the key is parsed: the
/// wire name, the key's DER container, and the verification suite.
#[derive(Debug, Clone, Copy, PartialEq, Eq, Structural)]
pub struct RsaVerifyPlan {
    /// Wire name of the signature algorithm, for the result's identifier.
    pub algorithm: SignatureAlgorithm,
    /// DER container of the public key.
    pub encoding: RsaPublicKeyDerEncoding,
    /// Signature scheme and its parameters.
    pub suite: RsaVerificationSuite,
}

/// DER container a request names.
pub open spec fn spec_rsa_encoding(encoding: Option<ProtoRsaPublicKeyDerEncoding>) -> Result<
    RsaPublicKeyDerEncoding,
    CryptoWireError,
> {
    match encoding {
        Some(ProtoRsaPublicKeyDerEncoding::Pkcs1) => Ok(RsaPublicKeyDerEncoding::Pkcs1),
        Some(ProtoRsaPublicKeyDerEncoding::Spki) => Ok(RsaPublicKeyDerEncoding::Spki),
        _ => Err(spec_invalid_parameter()),
    }
}

/// RSA verification plan of a request, or the first error in the order the
/// request is checked: the algorithm identifier, then the key container, then
/// the suite.
pub open spec fn spec_rsa_verify_plan(
    identifier: Option<CryptoAlgorithmIdentifier>,
    encoding: Option<ProtoRsaPublicKeyDerEncoding>,
) -> Result<RsaVerifyPlan, CryptoWireError> {
    match spec_signature_value(identifier) {
        Err(error) => Err(error),
        Ok(algorithm) => match spec_rsa_encoding(encoding) {
            Err(error) => Err(error),
            Ok(encoding) => match spec_rsa_verification_suite(algorithm) {
                Err(error) => Err(error),
                Ok(suite) => Ok(RsaVerifyPlan { algorithm, encoding, suite }),
            },
        },
    }
}

/// Validates an RSA verification request: the algorithm identifier, then the
/// public-key container, then the suite the algorithm names.
pub fn rsa_verify_plan(
    identifier: &Option<CryptoAlgorithmIdentifier>,
    encoding: Option<ProtoRsaPublicKeyDerEncoding>,
) -> (outcome: Result<RsaVerifyPlan, CryptoWireError>)
    ensures
        outcome == spec_rsa_verify_plan(*identifier, encoding),
        outcome is Ok ==> encoding == Some(ProtoRsaPublicKeyDerEncoding::Pkcs1) || encoding == Some(
            ProtoRsaPublicKeyDerEncoding::Spki,
        ),
        encoding == Some(ProtoRsaPublicKeyDerEncoding::Pkcs1) ==> (outcome matches Ok(plan)
            ==> plan.encoding == RsaPublicKeyDerEncoding::Pkcs1),
        encoding == Some(ProtoRsaPublicKeyDerEncoding::Spki) ==> (outcome matches Ok(plan)
            ==> plan.encoding == RsaPublicKeyDerEncoding::Spki),
        outcome matches Ok(plan) ==> *identifier == Some(
            CryptoAlgorithmIdentifier {
                algorithm: Some(AlgorithmBranch::Signature(Some(plan.algorithm))),
            },
        ),
{
    let algorithm = signature_algorithm_value(identifier)?;
    let encoding = rsa_public_key_der_encoding(encoding)?;
    let suite = rsa_verification_suite(algorithm)?;
    Ok(RsaVerifyPlan { algorithm, encoding, suite })
}

} // verus!
