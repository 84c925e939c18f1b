use reallyme_crypto::algorithm::Algorithm;
use reallyme_crypto::crypto_error::{
    AeadFailureKind, AlgorithmError, CryptoError, HkdfFailureKind, HpkeError, KdfFailureKind,
    KemFailureKind, KeyAgreementFailureKind, KeyWrapFailureKind, MacFailureKind,
    SignatureFailureKind,
};
use reallyme_crypto::algorithm::{
    AeadBackend, HkdfHash, KdfAlgorithm, KdfProfile, KeyWrapAlgorithm, KeyWrapOperation, MacHash,
    SignatureOperation,
};
use reallyme_crypto::operations::constant_time::{equal, equal_fixed, require_equal};
use reallyme_crypto::operations::error::{backend, primitive, provider, unsupported_algorithm};
use reallyme_crypto::operations::hpke::{
    map_hpke_error, require_operation_input_key_material,
    HPKE_OPERATION_MIN_INPUT_KEY_MATERIAL_LEN,
};
use reallyme_crypto::operations::key_encoding::{
    copy_fixed_public_key, invalid_public_key, map_public_key_error,
};
use reallyme_crypto::operations::platform_key::PlatformKeyOperation;
use reallyme_crypto::operations::aead::{map_aead_error, map_aead_failure_kind};
use reallyme_crypto::operations::kdf::{map_hkdf_error, map_kdf_error, require_pbkdf2_iterations};
use reallyme_crypto::operations::key_wrap::map_key_wrap_error;
use reallyme_crypto::operations::mac::map_hmac_error;
use reallyme_crypto::operations::random::randomness_unavailable;
use reallyme_crypto::operations::{kem, key_agreement, signature};
use reallyme_crypto::operations::signature::{
    ensure_supported_signature_algorithm, is_supported_signature_algorithm, signature_backend,
    SignatureBackend,
    split_slh_dsa_derive_input, SLH_DSA_DERIVE_INPUT_LEN, SLH_DSA_SEED_COMPONENT_LEN,
};
use reallyme_crypto::operations::{
    BackendErrorReason, OperationError, OperationFamily, PrimitiveErrorReason,
    ProviderErrorReason,
};

fn prim(reason: PrimitiveErrorReason) -> OperationError {
    OperationError::Primitive { reason }
}

fn prov(reason: ProviderErrorReason) -> OperationError {
    OperationError::Provider { reason }
}

fn internal() -> OperationError {
    OperationError::Backend { reason: BackendErrorReason::Internal }
}

const ALL_ALGORITHMS: [Algorithm; 14] = [
    Algorithm::Ed25519,
    Algorithm::P256,
    Algorithm::P384,
    Algorithm::P521,
    Algorithm::Secp256k1,
    Algorithm::X25519,
    Algorithm::MlDsa44,
    Algorithm::MlDsa65,
    Algorithm::MlDsa87,
    Algorithm::SlhDsaSha2_128s,
    Algorithm::MlKem512,
    Algorithm::MlKem768,
    Algorithm::MlKem1024,
    Algorithm::XWing768,
];

#[test]
fn error_constructors_build_the_named_variant() {
    assert_eq!(primitive(PrimitiveErrorReason::InvalidKey), prim(PrimitiveErrorReason::InvalidKey));
    assert_eq!(
        provider(ProviderErrorReason::KeyNotFound),
        prov(ProviderErrorReason::KeyNotFound)
    );
    assert_eq!(
        backend(BackendErrorReason::PanicContained),
        OperationError::Backend { reason: BackendErrorReason::PanicContained }
    );
    assert_eq!(unsupported_algorithm(), prov(ProviderErrorReason::UnsupportedAlgorithm));
    assert_eq!(randomness_unavailable(), prov(ProviderErrorReason::RandomnessUnavailable));
    assert_eq!(invalid_public_key(), prim(PrimitiveErrorReason::InvalidPublicKey));
}

#[test]
fn primitive_reason_text_is_fixed() {
    let cases = [
        (PrimitiveErrorReason::MissingAlgorithm, "missing algorithm"),
        (PrimitiveErrorReason::MissingOperation, "missing operation"),
        (PrimitiveErrorReason::InvalidKey, "invalid key"),
        (PrimitiveErrorReason::InvalidPublicKey, "invalid public key"),
        (PrimitiveErrorReason::InvalidPrivateKey, "invalid private key"),
        (PrimitiveErrorReason::MalformedCiphertext, "malformed ciphertext"),
        (PrimitiveErrorReason::InvalidParameter, "invalid parameter"),
        (PrimitiveErrorReason::InvalidLength, "invalid length"),
        (PrimitiveErrorReason::LengthOverflow, "length overflow"),
        (PrimitiveErrorReason::VerificationFailed, "verification failed"),
        (PrimitiveErrorReason::InvalidSharedSecret, "invalid shared secret"),
        (PrimitiveErrorReason::ResourceLimitExceeded, "resource limit exceeded"),
    ];
    for (reason, text) in cases {
        assert_eq!(reason.as_str(), text);
    }
}

#[test]
fn provider_reason_text_is_fixed() {
    let cases = [
        (ProviderErrorReason::UnsupportedAlgorithm, "unsupported algorithm"),
        (ProviderErrorReason::ProviderUnavailable, "provider unavailable"),
        (ProviderErrorReason::RandomnessUnavailable, "provider randomness unavailable"),
        (ProviderErrorReason::FallbackProhibited, "fallback prohibited"),
        (ProviderErrorReason::PlatformUnavailable, "platform unavailable"),
        (ProviderErrorReason::KeyExists, "key exists"),
        (ProviderErrorReason::KeyNotFound, "key not found"),
        (ProviderErrorReason::AccessDenied, "access denied"),
        (ProviderErrorReason::UserAuthenticationRequired, "user authentication required"),
        (ProviderErrorReason::UserCanceled, "user canceled"),
        (ProviderErrorReason::HardwareUnavailable, "hardware unavailable"),
        (ProviderErrorReason::HardwareRejectedKey, "hardware rejected key"),
    ];
    for (reason, text) in cases {
        assert_eq!(reason.as_str(), text);
    }
}

#[test]
fn backend_reason_text_is_fixed() {
    assert_eq!(BackendErrorReason::InvalidOutput.as_str(), "invalid output");
    assert_eq!(BackendErrorReason::PanicContained.as_str(), "panic contained");
    assert_eq!(BackendErrorReason::Internal.as_str(), "internal failure");
}

#[test]
fn constant_time_equal_compares_contents_and_lengths() {
    assert!(equal(b"", b""));
    assert!(equal(b"same bytes", b"same bytes"));
    assert!(!equal(b"same bytes", b"same bytez"));
    assert!(!equal(b"\x00bc", b"abc"));
    assert!(!equal(b"short", b"shorter"));
    assert!(equal_fixed(&[7u8; 32], &[7u8; 32]));
    let mut other = [7u8; 32];
    other[31] = 8;
    assert!(!equal_fixed(&[7u8; 32], &other));
}

#[test]
fn require_equal_reports_length_and_mismatch_separately() {
    assert_eq!(require_equal(b"tag", b"tag"), Ok(()));
    assert_eq!(require_equal(b"tag", b"tags"), Err(prim(PrimitiveErrorReason::InvalidLength)));
    assert_eq!(
        require_equal(b"tag", b"tak"),
        Err(prim(PrimitiveErrorReason::VerificationFailed))
    );
    assert_eq!(require_equal(b"", b""), Ok(()));
}

#[test]
fn copy_fixed_public_key_copies_exact_width_only() {
    let key = [3u8; 32];
    assert_eq!(copy_fixed_public_key(&key, 32), Ok(key.to_vec()));
    assert_eq!(
        copy_fixed_public_key(&key, 33),
        Err(prim(PrimitiveErrorReason::InvalidPublicKey))
    );
    assert_eq!(
        copy_fixed_public_key(&key[..31], 32),
        Err(prim(PrimitiveErrorReason::InvalidPublicKey))
    );
    assert_eq!(copy_fixed_public_key(&[], 0), Ok(Vec::new()));
}

#[test]
fn public_key_errors_are_classified() {
    assert_eq!(map_public_key_error(CryptoError::InvalidKey), invalid_public_key());
    assert_eq!(
        map_public_key_error(CryptoError::Signature {
            operation: SignatureOperation::Verify,
            kind: SignatureFailureKind::InvalidPublicKey,
        }),
        invalid_public_key()
    );
    assert_eq!(
        map_public_key_error(CryptoError::Unsupported),
        prov(ProviderErrorReason::UnsupportedAlgorithm)
    );
    assert_eq!(map_public_key_error(CryptoError::Other), internal());
}

#[test]
fn platform_key_operations_are_classified() {
    let all = [
        PlatformKeyOperation::Generate,
        PlatformKeyOperation::GetPublicKey,
        PlatformKeyOperation::Sign,
        PlatformKeyOperation::Verify,
        PlatformKeyOperation::DeriveSharedSecret,
        PlatformKeyOperation::Delete,
        PlatformKeyOperation::Attest,
    ];
    for operation in all {
        assert_eq!(operation.family(), OperationFamily::PlatformKey);
        assert_eq!(operation.requires_existing_key(), operation != PlatformKeyOperation::Generate);
        assert_eq!(
            operation.produces_secret_material(),
            operation == PlatformKeyOperation::DeriveSharedSecret
        );
        if operation.produces_secret_material() {
            assert!(operation.requires_existing_key());
        }
    }
}

#[test]
fn algorithm_gates_partition_the_families() {
    for algorithm in ALL_ALGORITHMS {
        let kem = matches!(
            algorithm,
            Algorithm::MlKem512 | Algorithm::MlKem768 | Algorithm::MlKem1024 | Algorithm::XWing768
        );
        let agreement = matches!(
            algorithm,
            Algorithm::X25519 | Algorithm::P256 | Algorithm::P384 | Algorithm::P521
        );
        let signature = !kem && algorithm != Algorithm::X25519;
        assert_eq!(kem::is_kem_algorithm(algorithm), kem);
        assert_eq!(key_agreement::is_key_agreement_algorithm(algorithm), agreement);
        assert_eq!(is_supported_signature_algorithm(algorithm), signature);
        assert!(!(kem && agreement));
        assert!(!(kem && signature));
        let unsupported = Err(prov(ProviderErrorReason::UnsupportedAlgorithm));
        assert_eq!(kem::ensure_kem_algorithm(algorithm), if kem { Ok(()) } else { unsupported });
        assert_eq!(
            key_agreement::ensure_key_agreement_algorithm(algorithm),
            if agreement { Ok(()) } else { unsupported }
        );
        assert_eq!(
            ensure_supported_signature_algorithm(algorithm),
            if signature { Ok(()) } else { unsupported }
        );
    }
}

#[test]
fn slh_dsa_derive_input_splits_into_three_seeds() {
    assert_eq!(SLH_DSA_SEED_COMPONENT_LEN, 16);
    assert_eq!(SLH_DSA_DERIVE_INPUT_LEN, 48);
    let input: Vec<u8> = (0u8..48).collect();
    let (sk_seed, sk_prf, pk_seed) = split_slh_dsa_derive_input(&input).unwrap();
    assert_eq!(sk_seed, &input[0..16]);
    assert_eq!(sk_prf, &input[16..32]);
    assert_eq!(pk_seed, &input[32..48]);
    assert_eq!(
        split_slh_dsa_derive_input(&input[..47]),
        Err(prim(PrimitiveErrorReason::InvalidKey))
    );
    let longer = [0u8; 49];
    assert_eq!(split_slh_dsa_derive_input(&longer), Err(prim(PrimitiveErrorReason::InvalidKey)));
    assert_eq!(split_slh_dsa_derive_input(&[]), Err(prim(PrimitiveErrorReason::InvalidKey)));
}

#[test]
fn hpke_input_key_material_has_a_256_bit_floor() {
    assert_eq!(HPKE_OPERATION_MIN_INPUT_KEY_MATERIAL_LEN, 32);
    assert_eq!(require_operation_input_key_material(&[1u8; 32]), Ok(()));
    assert_eq!(require_operation_input_key_material(&[1u8; 64]), Ok(()));
    assert_eq!(
        require_operation_input_key_material(&[1u8; 31]),
        Err(prim(PrimitiveErrorReason::InvalidLength))
    );
    assert_eq!(
        require_operation_input_key_material(&[]),
        Err(prim(PrimitiveErrorReason::InvalidLength))
    );
}

#[test]
fn hpke_errors_are_classified() {
    let unsupported = prov(ProviderErrorReason::UnsupportedAlgorithm);
    let cases = [
        (HpkeError::UnsupportedKem, unsupported),
        (HpkeError::UnsupportedKdf, unsupported),
        (HpkeError::UnsupportedAead, unsupported),
        (HpkeError::UnsupportedSuite, unsupported),
        (HpkeError::InvalidPublicKey, prim(PrimitiveErrorReason::InvalidPublicKey)),
        (HpkeError::InvalidPrivateKey, prim(PrimitiveErrorReason::InvalidPrivateKey)),
        (HpkeError::InvalidEncapsulatedKey, prim(PrimitiveErrorReason::MalformedCiphertext)),
        (HpkeError::InvalidCiphertext, prim(PrimitiveErrorReason::MalformedCiphertext)),
        (HpkeError::InvalidInputKeyMaterial, prim(PrimitiveErrorReason::InvalidLength)),
        (HpkeError::InvalidInfoLength, prim(PrimitiveErrorReason::InvalidLength)),
        (HpkeError::InvalidExporterLength, prim(PrimitiveErrorReason::InvalidLength)),
        (HpkeError::LengthOverflow, prim(PrimitiveErrorReason::LengthOverflow)),
        (HpkeError::InvalidPsk, prim(PrimitiveErrorReason::InvalidParameter)),
        (HpkeError::InvalidPskIdentifier, prim(PrimitiveErrorReason::InvalidParameter)),
        (HpkeError::InvalidRandomness, prim(PrimitiveErrorReason::InvalidParameter)),
        (HpkeError::OpenFailed, prim(PrimitiveErrorReason::VerificationFailed)),
        (HpkeError::RandomnessUnavailable, prov(ProviderErrorReason::RandomnessUnavailable)),
        (HpkeError::SealFailed, internal()),
        (HpkeError::ExportFailed, internal()),
        (HpkeError::KeyGenerationFailed, internal()),
        (HpkeError::Other, internal()),
    ];
    for (error, expected) in cases {
        assert_eq!(map_hpke_error(error), expected);
    }
}

#[test]
fn aead_failures_are_classified() {
    let cases = [
        (AeadFailureKind::InvalidKeyMaterial, prim(PrimitiveErrorReason::InvalidKey)),
        (AeadFailureKind::LengthOverflow, prim(PrimitiveErrorReason::LengthOverflow)),
        (AeadFailureKind::ShortCiphertext, prim(PrimitiveErrorReason::InvalidLength)),
        (
            AeadFailureKind::InvalidOutputLength,
            OperationError::Backend { reason: BackendErrorReason::InvalidOutput },
        ),
        (AeadFailureKind::AuthenticationFailed, prim(PrimitiveErrorReason::VerificationFailed)),
        (AeadFailureKind::BackendFailure, internal()),
    ];
    for (kind, expected) in cases {
        assert_eq!(map_aead_failure_kind(kind), expected);
        let sealed = CryptoError::AeadEncrypt { backend: AeadBackend::Native, kind };
        let opened = CryptoError::AeadDecrypt { backend: AeadBackend::Wasm, kind };
        assert_eq!(map_aead_error(sealed), expected);
        assert_eq!(map_aead_error(opened), expected);
    }
    assert_eq!(map_aead_error(CryptoError::InvalidKey), prim(PrimitiveErrorReason::InvalidKey));
    assert_eq!(
        map_aead_error(CryptoError::InvalidAeadKeyLength { expected: 32, actual: 31 }),
        prim(PrimitiveErrorReason::InvalidKey)
    );
    assert_eq!(
        map_aead_error(CryptoError::InvalidAeadNonceLength { expected: 12, actual: 11 }),
        prim(PrimitiveErrorReason::InvalidLength)
    );
    assert_eq!(
        map_aead_error(CryptoError::InvalidCiphertextLength { minimum: 16, actual: 3 }),
        prim(PrimitiveErrorReason::InvalidLength)
    );
    assert_eq!(
        map_aead_error(CryptoError::Unsupported),
        prov(ProviderErrorReason::UnsupportedAlgorithm)
    );
    assert_eq!(map_aead_error(CryptoError::Other), internal());
}

#[test]
fn hmac_failures_are_classified() {
    let mac = |kind| CryptoError::Mac { hash: MacHash::Sha2_384, kind };
    assert_eq!(
        map_hmac_error(mac(MacFailureKind::InvalidKeyLength)),
        prim(PrimitiveErrorReason::InvalidKey)
    );
    assert_eq!(
        map_hmac_error(mac(MacFailureKind::InvalidTagLength)),
        prim(PrimitiveErrorReason::InvalidLength)
    );
    assert_eq!(
        map_hmac_error(mac(MacFailureKind::VerificationFailed)),
        prim(PrimitiveErrorReason::VerificationFailed)
    );
    assert_eq!(map_hmac_error(mac(MacFailureKind::BackendFailure)), internal());
    assert_eq!(
        map_hmac_error(CryptoError::Unsupported),
        prov(ProviderErrorReason::UnsupportedAlgorithm)
    );
    assert_eq!(map_hmac_error(CryptoError::InvalidKey), internal());
}

#[test]
fn key_wrap_failures_are_classified() {
    let kw = |kind| CryptoError::KeyWrap {
        algorithm: KeyWrapAlgorithm::Aes256Kw,
        operation: KeyWrapOperation::Unwrap,
        kind,
    };
    let cases = [
        (KeyWrapFailureKind::InvalidKekLength, prim(PrimitiveErrorReason::InvalidKey)),
        (KeyWrapFailureKind::InvalidPlaintextLength, prim(PrimitiveErrorReason::InvalidLength)),
        (KeyWrapFailureKind::InvalidWrappedLength, prim(PrimitiveErrorReason::InvalidLength)),
        (KeyWrapFailureKind::LengthOverflow, prim(PrimitiveErrorReason::LengthOverflow)),
        (KeyWrapFailureKind::IntegrityCheckFailed, prim(PrimitiveErrorReason::VerificationFailed)),
        (KeyWrapFailureKind::BackendFailure, internal()),
    ];
    for (kind, expected) in cases {
        assert_eq!(map_key_wrap_error(kw(kind)), expected);
    }
    assert_eq!(
        map_key_wrap_error(CryptoError::Unsupported),
        prov(ProviderErrorReason::UnsupportedAlgorithm)
    );
    assert_eq!(map_key_wrap_error(CryptoError::InvalidKey), internal());
}

#[test]
fn kdf_failures_are_classified() {
    let kdf = |kind| CryptoError::Kdf {
        algorithm: KdfAlgorithm::Argon2id,
        profile: KdfProfile::Argon2idV2,
        kind,
    };
    let cases = [
        (KdfFailureKind::InvalidSecretLength, prim(PrimitiveErrorReason::InvalidKey)),
        (KdfFailureKind::InvalidSaltLength, prim(PrimitiveErrorReason::InvalidLength)),
        (KdfFailureKind::InvalidOutputLength, prim(PrimitiveErrorReason::InvalidLength)),
        (KdfFailureKind::InvalidIterationCount, prim(PrimitiveErrorReason::InvalidParameter)),
        (KdfFailureKind::InvalidParams, prim(PrimitiveErrorReason::InvalidParameter)),
        (KdfFailureKind::DerivationFailed, internal()),
    ];
    for (kind, expected) in cases {
        assert_eq!(map_kdf_error(kdf(kind)), expected);
    }
    assert_eq!(
        map_kdf_error(CryptoError::Unsupported),
        prov(ProviderErrorReason::UnsupportedAlgorithm)
    );
    assert_eq!(map_kdf_error(CryptoError::Other), internal());

    let hkdf = |kind| CryptoError::Hkdf { hash: HkdfHash::Sha3_256, kind };
    let cases = [
        (HkdfFailureKind::InvalidIkmLength, prim(PrimitiveErrorReason::InvalidKey)),
        (HkdfFailureKind::InvalidDomainTagLength, prim(PrimitiveErrorReason::InvalidLength)),
        (HkdfFailureKind::InvalidDomainTagByte, prim(PrimitiveErrorReason::InvalidLength)),
        (HkdfFailureKind::InvalidOutputLength, prim(PrimitiveErrorReason::InvalidLength)),
        (HkdfFailureKind::LengthOverflow, prim(PrimitiveErrorReason::LengthOverflow)),
        (HkdfFailureKind::ExpandFailed, internal()),
    ];
    for (kind, expected) in cases {
        assert_eq!(map_hkdf_error(hkdf(kind)), expected);
    }
    assert_eq!(
        map_hkdf_error(CryptoError::Unsupported),
        prov(ProviderErrorReason::UnsupportedAlgorithm)
    );
    assert_eq!(map_hkdf_error(CryptoError::InvalidKey), internal());
}

#[test]
fn kem_failures_are_classified() {
    assert_eq!(kem::map_crypto_error(CryptoError::InvalidKey), prim(PrimitiveErrorReason::InvalidKey));
    assert_eq!(
        kem::map_crypto_error(CryptoError::InvalidCiphertextLength { minimum: 1088, actual: 10 }),
        prim(PrimitiveErrorReason::InvalidLength)
    );
    assert_eq!(
        kem::map_crypto_error(CryptoError::KemFailure { kind: KemFailureKind::KeyGenerationFailed }),
        internal()
    );
    assert_eq!(
        kem::map_crypto_error(CryptoError::KemFailure { kind: KemFailureKind::EncapsulateFailed }),
        prim(PrimitiveErrorReason::InvalidKey)
    );
    assert_eq!(
        kem::map_crypto_error(CryptoError::KemFailure { kind: KemFailureKind::DecapsulateFailed }),
        prim(PrimitiveErrorReason::VerificationFailed)
    );
    assert_eq!(
        kem::map_crypto_error(CryptoError::KeyAgreementFailure {
            kind: KeyAgreementFailureKind::DeriveSharedSecretFailed,
        }),
        prim(PrimitiveErrorReason::InvalidSharedSecret)
    );
    assert_eq!(
        kem::map_crypto_error(CryptoError::KeyAgreementFailure {
            kind: KeyAgreementFailureKind::KeyGenerationFailed,
        }),
        internal()
    );
    assert_eq!(
        kem::map_crypto_error(CryptoError::Unsupported),
        prov(ProviderErrorReason::UnsupportedAlgorithm)
    );
    assert_eq!(
        kem::map_dispatch_error(AlgorithmError::UnsupportedAlgorithm(Algorithm::MlKem768)),
        prov(ProviderErrorReason::UnsupportedAlgorithm)
    );
    assert_eq!(
        kem::map_dispatch_error(AlgorithmError::InvalidKey(Algorithm::MlKem768)),
        prim(PrimitiveErrorReason::InvalidKey)
    );
    assert_eq!(
        kem::map_dispatch_error(AlgorithmError::SignatureInvalid(Algorithm::MlKem768)),
        prim(PrimitiveErrorReason::VerificationFailed)
    );
    assert_eq!(
        kem::map_dispatch_error(AlgorithmError::Crypto(CryptoError::KemFailure {
            kind: KemFailureKind::DecapsulateFailed,
        })),
        prim(PrimitiveErrorReason::VerificationFailed)
    );
    assert_eq!(kem::map_dispatch_error(AlgorithmError::Other), internal());
}

#[test]
fn key_agreement_failures_are_classified() {
    assert_eq!(key_agreement::map_crypto_error(CryptoError::InvalidKey), prim(PrimitiveErrorReason::InvalidKey));
    assert_eq!(
        key_agreement::map_crypto_error(CryptoError::KeyAgreementFailure {
            kind: KeyAgreementFailureKind::DeriveSharedSecretFailed,
        }),
        prim(PrimitiveErrorReason::InvalidSharedSecret)
    );
    assert_eq!(
        key_agreement::map_crypto_error(CryptoError::KeyAgreementFailure {
            kind: KeyAgreementFailureKind::KeyGenerationFailed,
        }),
        internal()
    );
    assert_eq!(
        key_agreement::map_crypto_error(CryptoError::Unsupported),
        prov(ProviderErrorReason::UnsupportedAlgorithm)
    );
    assert_eq!(
        key_agreement::map_crypto_error(CryptoError::KemFailure { kind: KemFailureKind::EncapsulateFailed }),
        internal()
    );
    assert_eq!(
        key_agreement::map_dispatch_error(AlgorithmError::UnsupportedHashAlgorithm(
            reallyme_crypto::algorithm::HashAlgorithm::Sha2_256
        )),
        prov(ProviderErrorReason::UnsupportedAlgorithm)
    );
    assert_eq!(
        key_agreement::map_dispatch_error(AlgorithmError::InvalidKey(Algorithm::X25519)),
        prim(PrimitiveErrorReason::InvalidKey)
    );
    assert_eq!(
        key_agreement::map_dispatch_error(AlgorithmError::Crypto(CryptoError::KeyAgreementFailure {
            kind: KeyAgreementFailureKind::DeriveSharedSecretFailed,
        })),
        prim(PrimitiveErrorReason::InvalidSharedSecret)
    );
    assert_eq!(key_agreement::map_dispatch_error(AlgorithmError::Other), internal());
}

#[test]
fn signature_failures_are_classified() {
    let sig = |kind| CryptoError::Signature { operation: SignatureOperation::Sign, kind };
    let cases = [
        (SignatureFailureKind::InvalidPrivateKey, prim(PrimitiveErrorReason::InvalidKey)),
        (SignatureFailureKind::InvalidPublicKey, prim(PrimitiveErrorReason::InvalidKey)),
        (SignatureFailureKind::InvalidSignature, prim(PrimitiveErrorReason::VerificationFailed)),
        (SignatureFailureKind::InvalidMessage, prim(PrimitiveErrorReason::InvalidLength)),
        (SignatureFailureKind::KeyGenerationFailed, internal()),
        (
            SignatureFailureKind::SecureEnclaveUnavailable,
            prov(ProviderErrorReason::HardwareUnavailable),
        ),
        (
            SignatureFailureKind::SecureEnclaveRejectedKey,
            prov(ProviderErrorReason::HardwareRejectedKey),
        ),
    ];
    for (kind, expected) in cases {
        assert_eq!(signature::map_crypto_error(sig(kind)), expected);
        assert_eq!(signature::map_dispatch_error(AlgorithmError::Crypto(sig(kind))), expected);
    }
    assert_eq!(signature::map_crypto_error(CryptoError::InvalidKey), prim(PrimitiveErrorReason::InvalidKey));
    assert_eq!(
        signature::map_crypto_error(CryptoError::Unsupported),
        prov(ProviderErrorReason::UnsupportedAlgorithm)
    );
    assert_eq!(signature::map_crypto_error(CryptoError::Other), internal());
    assert_eq!(
        signature::map_dispatch_error(AlgorithmError::SignatureInvalid(Algorithm::Ed25519)),
        prim(PrimitiveErrorReason::VerificationFailed)
    );
    assert_eq!(
        signature::map_dispatch_error(AlgorithmError::UnsupportedAlgorithm(Algorithm::X25519)),
        prov(ProviderErrorReason::UnsupportedAlgorithm)
    );
    assert_eq!(signature::map_dispatch_error(AlgorithmError::Other), internal());
}

#[test]
fn pbkdf2_iterations_follow_the_work_factor_policy() {
    check_pbkdf2_policy(600_000, 10_000_000);
}

fn check_pbkdf2_policy(min: u32, max: u32) {
    check_policy_case(min, min, max, true);
    check_policy_case(max, min, max, true);
    check_policy_case(min + 1, min, max, true);
    check_policy_case(min - 1, min, max, false);
    check_policy_case(max + 1, min, max, false);
    check_policy_case(0, min, max, false);
    check_policy_case(u32::MAX, min, max, false);
}

fn check_policy_case(iterations: u32, min: u32, max: u32, accepted: bool) {
    let outcome = require_pbkdf2_iterations(iterations, min, max);
    if accepted {
        assert_eq!(outcome, Ok(()));
    } else {
        assert_eq!(outcome, Err(prim(PrimitiveErrorReason::InvalidParameter)));
    }
}

#[test]
fn signature_operations_pick_their_primitive() {
    for algorithm in ALL_ALGORITHMS {
        let expected = if !is_supported_signature_algorithm(algorithm) {
            Err(prov(ProviderErrorReason::UnsupportedAlgorithm))
        } else if algorithm == Algorithm::SlhDsaSha2_128s {
            Ok(SignatureBackend::SlhDsaSha2_128s)
        } else {
            Ok(SignatureBackend::Dispatch(algorithm))
        };
        assert_eq!(signature_backend(algorithm), expected);
    }
    assert_eq!(
        signature_backend(Algorithm::MlKem1024),
        Err(prov(ProviderErrorReason::UnsupportedAlgorithm))
    );
    assert_eq!(signature_backend(Algorithm::Ed25519), Ok(SignatureBackend::Dispatch(Algorithm::Ed25519)));
}
