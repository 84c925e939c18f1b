//! Properties that relate several functions of the library.

use vstd::prelude::*;

use crate::aead_error::{spec_crypto_error_from_operation_error, spec_nonce_length, AeadOperation};
use crate::algorithm::{
    AeadAlgorithm, Algorithm, HashAlgorithm, HkdfHash, KdfProfile, KeyWrapAlgorithm,
    KeyWrapOperation, MacAlgorithm, RsaHash, RsaPssParams, RsaPublicKeyDerEncoding,
    SignatureOperation,
};
use crate::crypto_error::{AlgorithmError, CryptoError, SignatureFailureKind};
use crate::operations::aead::aead_error;
use crate::operations::kdf::{hkdf_error, kdf_error};
use crate::operations::key_wrap::key_wrap_error;
use crate::operations::mac::hmac_error;
use crate::operation_contract::algorithms::{
    spec_aead_selection, spec_hash_selection, spec_key_wrap_selection, spec_mac_selection,
    spec_proto_aead, spec_proto_hash, spec_proto_key_wrap, spec_proto_mac,
};
use crate::operation_contract::algorithms::spec_kdf_requirement;
use crate::operation_contract::hpke::spec_hpke_suite_code_points;
use crate::operation_contract::identifier::{
    AlgorithmBranch, CryptoAlgorithmIdentifier, HpkeSuiteIdentifier, ProtoKdfAlgorithm,
    SignatureAlgorithm,
};
use crate::operation_contract::kdf::spec_is_fixed_output_length;
use crate::operation_contract::key_agreement_algorithms::{
    spec_key_agreement_selection, spec_proto_key_agreement,
};
use crate::operation_contract::signature::{
    spec_rsa_verify_plan, spec_signature_route, RsaVerificationSuite, RsaVerifyPlan,
    SignatureRoute,
};
use crate::operation_contract::signature_algorithms::{
    spec_core_signature, spec_signature_value, ProtoRsaPublicKeyDerEncoding,
};
use crate::operation_contract::operation_error::{spec_origin_branch, spec_wire_reason};
use crate::operation_contract::wire_error::{
    spec_reason_branch, spec_unsupported_algorithm, CryptoWireError,
};
use crate::operations::kem::spec_is_kem_algorithm;
use crate::operations::key_agreement::spec_is_key_agreement_algorithm;
use crate::operations::platform_key::PlatformKeyOperation;
use crate::operations::signature::{
    signature_crypto_error, signature_dispatch_error, spec_is_supported_signature_algorithm,
};
use crate::operations::{OperationError, PrimitiveErrorReason};

verus! {

/// An AEAD primitive failure keeps its operation-layer classification when the
/// facade maps that classification back into a `CryptoError` and the
/// operation layer classifies the result again.
///
/// The one exception is a length failure while sealing with a nonce of the
/// right length: the facade cannot attribute it to the caller and reports a
/// backend failure instead.
pub proof fn aead_error_classification_round_trip(
    failure: CryptoError,
    algorithm: AeadAlgorithm,
    operation: AeadOperation,
    key_len: usize,
    nonce_len: usize,
    input_len: usize,
)
    requires
        !(aead_error(failure) == (OperationError::Primitive {
            reason: PrimitiveErrorReason::InvalidLength,
        }) && operation == AeadOperation::Seal && nonce_len == spec_nonce_length(algorithm)),
    ensures
        aead_error(
            spec_crypto_error_from_operation_error(
                algorithm,
                operation,
                aead_error(failure),
                key_len,
                nonce_len,
                input_len,
            ),
        ) == aead_error(failure),
{
}

/// An HMAC primitive failure keeps its operation-layer classification when the
/// MAC facade maps it back into a `CryptoError` and the operation layer
/// classifies the result again.
pub proof fn mac_error_classification_round_trip(failure: CryptoError, algorithm: MacAlgorithm)
    ensures
        hmac_error(crate::hmac::spec_crypto_error_from_operation_error(algorithm, hmac_error(failure)))
            == hmac_error(failure),
{
}

/// An AES-KW primitive failure keeps its operation-layer classification when
/// the key-wrap facade maps it back into a `CryptoError`, in either
/// direction, and the operation layer classifies the result again.
pub proof fn key_wrap_error_classification_round_trip(
    failure: CryptoError,
    algorithm: KeyWrapAlgorithm,
    operation: KeyWrapOperation,
)
    ensures
        key_wrap_error(
            crate::aes_kw::spec_crypto_error_from_operation_error(
                algorithm,
                operation,
                key_wrap_error(failure),
            ),
        ) == key_wrap_error(failure),
{
}

/// An HKDF primitive failure keeps its operation-layer classification when the
/// HKDF facade maps it back into a `CryptoError` and the operation layer
/// classifies the result again.
pub proof fn hkdf_error_classification_round_trip(failure: CryptoError, hash: HkdfHash)
    ensures
        hkdf_error(crate::hkdf::spec_crypto_error_from_operation_error(hash, hkdf_error(failure)))
            == hkdf_error(failure),
{
}

/// A KMAC256 or Concat KDF primitive failure keeps its operation-layer
/// classification through the facade and back, except an invalid parameter,
/// which these facades report as a failed derivation.
pub proof fn output_kdf_error_classification_round_trip(failure: CryptoError)
    requires
        kdf_error(failure) != (OperationError::Primitive {
            reason: PrimitiveErrorReason::InvalidParameter,
        }),
    ensures
        kdf_error(crate::kmac::spec_crypto_error_from_operation_error(kdf_error(failure)))
            == kdf_error(failure),
        kdf_error(crate::concat_kdf::spec_crypto_error_from_operation_error(kdf_error(failure)))
            == kdf_error(failure),
{
}

/// An Argon2id primitive failure keeps its operation-layer classification
/// through the facade and back, except length failures, which the facade
/// reports as parameters that do not fit the profile, and invalid parameters,
/// which it reports as a failed derivation.
pub proof fn argon2id_error_classification_round_trip(failure: CryptoError, profile: KdfProfile)
    requires
        kdf_error(failure) != (OperationError::Primitive {
            reason: PrimitiveErrorReason::InvalidParameter,
        }),
        kdf_error(failure) != (OperationError::Primitive {
            reason: PrimitiveErrorReason::InvalidLength,
        }),
    ensures
        kdf_error(
            crate::argon2id::spec_crypto_error_from_operation_error(profile, kdf_error(failure)),
        ) == kdf_error(failure),
{
}

/// The identifier a result carries for the AEAD algorithm it used selects that
/// same algorithm when it is read back as a request identifier.
pub proof fn aead_identifier_round_trip(algorithm: AeadAlgorithm)
    ensures
        spec_aead_selection(
            Some(
                CryptoAlgorithmIdentifier {
                    algorithm: Some(AlgorithmBranch::Aead(Some(spec_proto_aead(algorithm)))),
                },
            ),
        ) == Ok::<AeadAlgorithm, CryptoWireError>(algorithm),
{
}

/// The identifier a result carries for the hash algorithm it used selects that
/// same algorithm when it is read back as a request identifier.
pub proof fn hash_identifier_round_trip(algorithm: HashAlgorithm)
    ensures
        spec_hash_selection(
            Some(
                CryptoAlgorithmIdentifier {
                    algorithm: Some(AlgorithmBranch::Hash(Some(spec_proto_hash(algorithm)))),
                },
            ),
        ) == Ok::<HashAlgorithm, CryptoWireError>(algorithm),
{
}

/// The identifier a result carries for the MAC algorithm it used selects that
/// same algorithm when it is read back as a request identifier.
pub proof fn mac_identifier_round_trip(algorithm: MacAlgorithm)
    ensures
        spec_mac_selection(
            Some(
                CryptoAlgorithmIdentifier {
                    algorithm: Some(AlgorithmBranch::Mac(Some(spec_proto_mac(algorithm)))),
                },
            ),
        ) == Ok::<MacAlgorithm, CryptoWireError>(algorithm),
{
}

/// The identifier a result carries for the key-wrap algorithm it used selects
/// that same algorithm when it is read back as a request identifier.
pub proof fn key_wrap_identifier_round_trip(algorithm: KeyWrapAlgorithm)
    ensures
        spec_key_wrap_selection(
            Some(
                CryptoAlgorithmIdentifier {
                    algorithm: Some(
                        AlgorithmBranch::KeyWrap(Some(spec_proto_key_wrap(algorithm))),
                    ),
                },
            ),
        ) == Ok::<KeyWrapAlgorithm, CryptoWireError>(algorithm),
{
}

/// Every key-agreement algorithm has a wire name, and the identifier carrying
/// it selects that same algorithm when it is read back.
pub proof fn key_agreement_identifier_round_trip(algorithm: Algorithm)
    requires
        spec_is_key_agreement_algorithm(algorithm),
    ensures
        spec_proto_key_agreement(algorithm) is Some,
        spec_key_agreement_selection(
            Some(
                CryptoAlgorithmIdentifier {
                    algorithm: Some(
                        AlgorithmBranch::KeyAgreement(spec_proto_key_agreement(algorithm)),
                    ),
                },
            ),
        ) == Ok::<Algorithm, CryptoWireError>(algorithm),
{
}

/// Algorithm families are separated: no algorithm passes both the KEM gate and
/// the key-agreement gate, nor both the KEM gate and the signature gate.
pub proof fn kem_gate_is_exclusive(algorithm: Algorithm)
    ensures
        !(spec_is_kem_algorithm(algorithm) && spec_is_key_agreement_algorithm(algorithm)),
        !(spec_is_kem_algorithm(algorithm) && spec_is_supported_signature_algorithm(algorithm)),
{
}

/// A platform-key operation that can produce secret material always works on a
/// previously created key: secret material never comes from key generation.
pub proof fn secret_producing_platform_operation_uses_existing_key(operation: PlatformKeyOperation)
    ensures
        operation.spec_produces_secret_material() ==> operation.spec_requires_existing_key(),
{
}

/// Signature routing and raw-key selection agree: a request routed to a
/// raw-key operation selects exactly that algorithm, a request routed to
/// BIP-340 Schnorr selects no raw-key algorithm, and a request that cannot be
/// routed cannot be selected either, with the same error.
pub proof fn signature_route_agrees_with_raw_selection(
    identifier: Option<CryptoAlgorithmIdentifier>,
)
    ensures
        match spec_signature_route(identifier) {
            Ok((_, SignatureRoute::Raw(algorithm))) => match spec_signature_value(identifier) {
                Ok(value) => spec_core_signature(value) == Some(algorithm),
                Err(_) => false,
            },
            Ok((_, SignatureRoute::Bip340)) => match spec_signature_value(identifier) {
                Ok(value) => spec_core_signature(value) is None,
                Err(_) => false,
            },
            Err(error) => match spec_signature_value(identifier) {
                Ok(value) => spec_core_signature(value) is None && error
                    == spec_unsupported_algorithm(),
                Err(value_error) => value_error == error,
            },
        },
{
}

/// An RSA verification request never reaches a raw-key signature operation:
/// every algorithm an accepted RSA plan carries selects no raw-key algorithm.
pub proof fn rsa_plans_never_select_raw_key_algorithms(
    identifier: Option<CryptoAlgorithmIdentifier>,
    encoding: Option<ProtoRsaPublicKeyDerEncoding>,
)
    ensures
        match spec_rsa_verify_plan(identifier, encoding) {
            Ok(plan) => spec_core_signature(plan.algorithm) is None,
            Err(_) => true,
        },
{
}

/// Every operation error reaches the wire with a reason of the branch it
/// originates from, so the boundary never has to replace a mapped error with
/// the malformed-message error.
pub proof fn wire_reason_belongs_to_origin_branch(error: OperationError)
    ensures
        spec_reason_branch(spec_wire_reason(error)) == spec_origin_branch(error),
{
}

/// An unsupported algorithm is reported as unsupported at every layer: each
/// facade maps the operation-layer error into `CryptoError::Unsupported`,
/// each primitive classifier maps that back into the operation-layer
/// error, and the wire reports it as an unsupported algorithm.
pub proof fn unsupported_algorithm_survives_every_layer(
    aead: AeadAlgorithm,
    operation: AeadOperation,
    key_len: usize,
    nonce_len: usize,
    input_len: usize,
    mac: MacAlgorithm,
    key_wrap: KeyWrapAlgorithm,
    direction: KeyWrapOperation,
    hash: HkdfHash,
    profile: KdfProfile,
)
    ensures
        ({
            let unsupported = OperationError::Provider {
                reason: crate::operations::ProviderErrorReason::UnsupportedAlgorithm,
            };
            &&& spec_crypto_error_from_operation_error(
                aead,
                operation,
                unsupported,
                key_len,
                nonce_len,
                input_len,
            ) == CryptoError::Unsupported
            &&& crate::hmac::spec_crypto_error_from_operation_error(mac, unsupported)
                == CryptoError::Unsupported
            &&& crate::aes_kw::spec_crypto_error_from_operation_error(key_wrap, direction, unsupported)
                == CryptoError::Unsupported
            &&& crate::hkdf::spec_crypto_error_from_operation_error(hash, unsupported)
                == CryptoError::Unsupported
            &&& crate::kmac::spec_crypto_error_from_operation_error(unsupported)
                == CryptoError::Unsupported
            &&& crate::concat_kdf::spec_crypto_error_from_operation_error(unsupported)
                == CryptoError::Unsupported
            &&& crate::argon2id::spec_crypto_error_from_operation_error(profile, unsupported)
                == CryptoError::Unsupported
            &&& aead_error(CryptoError::Unsupported) == unsupported
            &&& hmac_error(CryptoError::Unsupported) == unsupported
            &&& key_wrap_error(CryptoError::Unsupported) == unsupported
            &&& hkdf_error(CryptoError::Unsupported) == unsupported
            &&& kdf_error(CryptoError::Unsupported) == unsupported
            &&& spec_wire_reason(unsupported)
                == crate::operation_contract::wire_error::CryptoErrorReason::ProviderUnsupportedAlgorithm
            &&& spec_origin_branch(unsupported)
                == crate::operation_contract::wire_error::CryptoWireErrorBranch::Provider
        }),
{
}

/// A signature request that names the given wire algorithm.
pub open spec fn signature_request(algorithm: SignatureAlgorithm) -> Option<
    CryptoAlgorithmIdentifier,
> {
    Some(CryptoAlgorithmIdentifier { algorithm: Some(AlgorithmBranch::Signature(Some(algorithm))) })
}

/// A signature failure is classified by its kind alone, whichever operation
/// reported it; in particular a signature that does not verify is always a
/// verification mismatch, never a key or length error, whether the primitive
/// reports it directly or through dispatch.
pub proof fn signature_failure_classification_depends_only_on_kind(
    first: SignatureOperation,
    second: SignatureOperation,
    kind: SignatureFailureKind,
)
    ensures
        signature_crypto_error(CryptoError::Signature { operation: first, kind })
            == signature_crypto_error(CryptoError::Signature { operation: second, kind }),
        signature_crypto_error(
            CryptoError::Signature { operation: first, kind: SignatureFailureKind::InvalidSignature },
        ) == (OperationError::Primitive { reason: PrimitiveErrorReason::VerificationFailed }),
        signature_dispatch_error(
            AlgorithmError::Crypto(
                CryptoError::Signature {
                    operation: first,
                    kind: SignatureFailureKind::InvalidSignature,
                },
            ),
        ) == (OperationError::Primitive { reason: PrimitiveErrorReason::VerificationFailed }),
        signature_dispatch_error(AlgorithmError::SignatureInvalid(Algorithm::Ed25519))
            == (OperationError::Primitive { reason: PrimitiveErrorReason::VerificationFailed }),
{
}

/// An accepted RSA verification plan keeps exactly what the request named:
/// its wire algorithm, and the public-key container it named, PKCS#1 for
/// PKCS#1 and SPKI for SPKI.
pub proof fn rsa_plan_keeps_the_named_algorithm_and_container(
    identifier: Option<CryptoAlgorithmIdentifier>,
    encoding: Option<ProtoRsaPublicKeyDerEncoding>,
)
    ensures
        spec_rsa_verify_plan(identifier, encoding) matches Ok(plan) ==> identifier
            == signature_request(plan.algorithm) && ((encoding == Some(
            ProtoRsaPublicKeyDerEncoding::Pkcs1,
        ) && plan.encoding == RsaPublicKeyDerEncoding::Pkcs1) || (encoding == Some(
            ProtoRsaPublicKeyDerEncoding::Spki,
        ) && plan.encoding == RsaPublicKeyDerEncoding::Spki)),
{
}

/// Every RSA wire name is accepted with either container, and its plan
/// carries that container together with the scheme the name spells out:
/// PKCS#1 v1.5 with the named hash, or PSS with the named hash for both the
/// message and MGF1 and a salt as long as that hash's output. The container
/// and the suite do not depend on each other.
pub proof fn rsa_plans_follow_the_named_scheme_and_container(
    named: ProtoRsaPublicKeyDerEncoding,
    container: RsaPublicKeyDerEncoding,
)
    requires
        (named == ProtoRsaPublicKeyDerEncoding::Pkcs1 && container == RsaPublicKeyDerEncoding::Pkcs1)
            || (named == ProtoRsaPublicKeyDerEncoding::Spki && container
            == RsaPublicKeyDerEncoding::Spki),
    ensures
        spec_rsa_verify_plan(signature_request(SignatureAlgorithm::RsaPkcs1v15Sha1), Some(named))
            == Ok::<RsaVerifyPlan, CryptoWireError>(
            RsaVerifyPlan {
                algorithm: SignatureAlgorithm::RsaPkcs1v15Sha1,
                encoding: container,
                suite: RsaVerificationSuite::Pkcs1v15 { hash: RsaHash::Sha1 },
            },
        ),
        spec_rsa_verify_plan(signature_request(SignatureAlgorithm::RsaPkcs1v15Sha256), Some(named))
            == Ok::<RsaVerifyPlan, CryptoWireError>(
            RsaVerifyPlan {
                algorithm: SignatureAlgorithm::RsaPkcs1v15Sha256,
                encoding: container,
                suite: RsaVerificationSuite::Pkcs1v15 { hash: RsaHash::Sha256 },
            },
        ),
        spec_rsa_verify_plan(signature_request(SignatureAlgorithm::RsaPkcs1v15Sha384), Some(named))
            == Ok::<RsaVerifyPlan, CryptoWireError>(
            RsaVerifyPlan {
                algorithm: SignatureAlgorithm::RsaPkcs1v15Sha384,
                encoding: container,
                suite: RsaVerificationSuite::Pkcs1v15 { hash: RsaHash::Sha384 },
            },
        ),
        spec_rsa_verify_plan(signature_request(SignatureAlgorithm::RsaPkcs1v15Sha512), Some(named))
            == Ok::<RsaVerifyPlan, CryptoWireError>(
            RsaVerifyPlan {
                algorithm: SignatureAlgorithm::RsaPkcs1v15Sha512,
                encoding: container,
                suite: RsaVerificationSuite::Pkcs1v15 { hash: RsaHash::Sha512 },
            },
        ),
        spec_rsa_verify_plan(signature_request(SignatureAlgorithm::RsaPssSha1Mgf1Sha1), Some(named))
            == Ok::<RsaVerifyPlan, CryptoWireError>(
            RsaVerifyPlan {
                algorithm: SignatureAlgorithm::RsaPssSha1Mgf1Sha1,
                encoding: container,
                suite: RsaVerificationSuite::Pss {
                    params: RsaPssParams {
                        message_hash: RsaHash::Sha1,
                        mgf1_hash: RsaHash::Sha1,
                        salt_len: 20,
                    },
                },
            },
        ),
        spec_rsa_verify_plan(
            signature_request(SignatureAlgorithm::RsaPssSha256Mgf1Sha256),
            Some(named),
        ) == Ok::<RsaVerifyPlan, CryptoWireError>(
            RsaVerifyPlan {
                algorithm: SignatureAlgorithm::RsaPssSha256Mgf1Sha256,
                encoding: container,
                suite: RsaVerificationSuite::Pss {
                    params: RsaPssParams {
                        message_hash: RsaHash::Sha256,
                        mgf1_hash: RsaHash::Sha256,
                        salt_len: 32,
                    },
                },
            },
        ),
        spec_rsa_verify_plan(
            signature_request(SignatureAlgorithm::RsaPssSha384Mgf1Sha384),
            Some(named),
        ) == Ok::<RsaVerifyPlan, CryptoWireError>(
            RsaVerifyPlan {
                algorithm: SignatureAlgorithm::RsaPssSha384Mgf1Sha384,
                encoding: container,
                suite: RsaVerificationSuite::Pss {
                    params: RsaPssParams {
                        message_hash: RsaHash::Sha384,
                        mgf1_hash: RsaHash::Sha384,
                        salt_len: 48,
                    },
                },
            },
        ),
        spec_rsa_verify_plan(
            signature_request(SignatureAlgorithm::RsaPssSha512Mgf1Sha512),
            Some(named),
        ) == Ok::<RsaVerifyPlan, CryptoWireError>(
            RsaVerifyPlan {
                algorithm: SignatureAlgorithm::RsaPssSha512Mgf1Sha512,
                encoding: container,
                suite: RsaVerificationSuite::Pss {
                    params: RsaPssParams {
                        message_hash: RsaHash::Sha512,
                        mgf1_hash: RsaHash::Sha512,
                        salt_len: 64,
                    },
                },
            },
        ),
{
}

/// Requiring one exact KDF succeeds exactly when the identifier is a KDF
/// identifier naming that KDF. A KDF identifier naming any other KDF, the
/// unspecified KDF, or an unknown number is an unsupported algorithm; any other
/// identifier, or none, is an invalid parameter.
pub proof fn kdf_requirement_accepts_only_the_named_kdf(
    identifier: Option<CryptoAlgorithmIdentifier>,
    expected: ProtoKdfAlgorithm,
)
    ensures
        spec_kdf_requirement(identifier, expected) is Ok <==> identifier == Some(
            CryptoAlgorithmIdentifier { algorithm: Some(AlgorithmBranch::Kdf(Some(expected))) },
        ),
        identifier matches Some(CryptoAlgorithmIdentifier { algorithm: Some(AlgorithmBranch::Kdf(named)) })
            ==> (named != Some(expected) ==> spec_kdf_requirement(identifier, expected) == Err::<
            (),
            CryptoWireError,
        >(
            CryptoWireError {
                branch: crate::operation_contract::wire_error::CryptoWireErrorBranch::Provider,
                reason: crate::operation_contract::wire_error::CryptoErrorReason::ProviderUnsupportedAlgorithm,
            },
        )),
        !(identifier matches Some(CryptoAlgorithmIdentifier { algorithm: Some(AlgorithmBranch::Kdf(_)) }))
            ==> spec_kdf_requirement(identifier, expected) == Err::<(), CryptoWireError>(
            CryptoWireError {
                branch: crate::operation_contract::wire_error::CryptoWireErrorBranch::Primitive,
                reason: crate::operation_contract::wire_error::CryptoErrorReason::PrimitiveInvalidParameter,
            },
        ),
{
}

/// Every HPKE suite whose three components are 16-bit values is accepted with
/// exactly those values as its code points; a suite with any component
/// outside 0..=0xffff is an unsupported algorithm.
pub proof fn hpke_suites_keep_every_sixteen_bit_code_point(suite: HpkeSuiteIdentifier)
    ensures
        (0 <= suite.kem <= 0xffff && 0 <= suite.kdf <= 0xffff && 0 <= suite.aead <= 0xffff) ==> (
        spec_hpke_suite_code_points(
            Some(CryptoAlgorithmIdentifier { algorithm: Some(AlgorithmBranch::HpkeSuite(suite)) }),
        ) matches Ok(points) ==> points.kem == suite.kem && points.kdf == suite.kdf && points.aead
            == suite.aead),
        (0 <= suite.kem <= 0xffff && 0 <= suite.kdf <= 0xffff && 0 <= suite.aead <= 0xffff) ==> (
        spec_hpke_suite_code_points(
            Some(CryptoAlgorithmIdentifier { algorithm: Some(AlgorithmBranch::HpkeSuite(suite)) }),
        ) is Ok),
        !(0 <= suite.kem <= 0xffff && 0 <= suite.kdf <= 0xffff && 0 <= suite.aead <= 0xffff)
            ==> spec_hpke_suite_code_points(
            Some(CryptoAlgorithmIdentifier { algorithm: Some(AlgorithmBranch::HpkeSuite(suite)) }),
        ) == Err::<crate::operation_contract::hpke::HpkeSuiteCodePoints, CryptoWireError>(
            CryptoWireError {
                branch: crate::operation_contract::wire_error::CryptoWireErrorBranch::Provider,
                reason: crate::operation_contract::wire_error::CryptoErrorReason::ProviderUnsupportedAlgorithm,
            },
        ),
{
}

/// The fixed-length derivations offer exactly the output lengths 16, 24, 32,
/// 48, and 64 bytes and no other.
pub proof fn fixed_output_lengths_are_exactly_the_offered_sizes(output_length: u32)
    ensures
        spec_is_fixed_output_length(output_length) <==> (output_length == 16 || output_length == 24
            || output_length == 32 || output_length == 48 || output_length == 64),
{
}

} // verus!
