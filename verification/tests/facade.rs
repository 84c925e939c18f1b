use reallyme_crypto::aead_error::{
    aead_failure, current_backend, invalid_output_error, key_length, nonce_length, tag_length,
    AeadOperation, AEAD_256_BIT_KEY_LEN, AEAD_TAG_LEN, AES_128_GCM_KEY_LEN, AES_192_GCM_KEY_LEN,
    STANDARD_AEAD_NONCE_LEN, XCHACHA20_POLY1305_NONCE_LEN,
};
use reallyme_crypto::algorithm::{
    AeadAlgorithm, AeadBackend, Algorithm, HashAlgorithm, HkdfHash, HkdfSuite, KdfAlgorithm,
    KdfProfile, KeyWrapAlgorithm, KeyWrapOperation, MacAlgorithm, MacHash,
};
use reallyme_crypto::crypto_error::{
    AeadFailureKind, AlgorithmError, CryptoError, HkdfFailureKind, KdfFailureKind,
    KemFailureKind, KeyAgreementFailureKind, KeyWrapFailureKind, MacFailureKind,
};
use reallyme_crypto::dispatch::{
    aead_algorithm_error_from_operation_error, hash_algorithm_error_from_operation_error,
    mac_algorithm_error_from_operation_error, AeadParams, MacParams,
};
use reallyme_crypto::operation_contract::operation_error::map_operation_error;
use reallyme_crypto::operation_contract::wire_error::unsupported_algorithm;
use reallyme_crypto::operations::aead::map_aead_error;
use reallyme_crypto::{
    aead_error, aes_kw, argon2id, concat_kdf, hkdf, hmac, kem_error, key_agreement_error, kmac,
};
use reallyme_crypto::operations::kdf::{map_hkdf_error, map_kdf_error};
use reallyme_crypto::operations::key_wrap::map_key_wrap_error;
use reallyme_crypto::operations::mac::map_hmac_error;
use reallyme_crypto::operations::{
    BackendErrorReason, OperationError, PrimitiveErrorReason, ProviderErrorReason,
};

fn prim(reason: PrimitiveErrorReason) -> OperationError {
    OperationError::Primitive { reason }
}

fn unsupported() -> OperationError {
    OperationError::Provider { reason: ProviderErrorReason::UnsupportedAlgorithm }
}

fn internal() -> OperationError {
    OperationError::Backend { reason: BackendErrorReason::Internal }
}

const AEADS: [AeadAlgorithm; 6] = [
    AeadAlgorithm::Aes128Gcm,
    AeadAlgorithm::Aes192Gcm,
    AeadAlgorithm::Aes256Gcm,
    AeadAlgorithm::Aes256GcmSiv,
    AeadAlgorithm::ChaCha20Poly1305,
    AeadAlgorithm::XChaCha20Poly1305,
];

#[test]
fn aead_parameter_tables() {
    assert_eq!(AES_128_GCM_KEY_LEN, 16);
    assert_eq!(AES_192_GCM_KEY_LEN, 24);
    assert_eq!(AEAD_256_BIT_KEY_LEN, 32);
    assert_eq!(STANDARD_AEAD_NONCE_LEN, 12);
    assert_eq!(XCHACHA20_POLY1305_NONCE_LEN, 24);
    assert_eq!(AEAD_TAG_LEN, 16);
    let expected = [(16, 12), (24, 12), (32, 12), (32, 12), (32, 12), (32, 24)];
    for (algorithm, (key, nonce)) in AEADS.into_iter().zip(expected) {
        assert_eq!(key_length(algorithm), key);
        assert_eq!(nonce_length(algorithm), nonce);
        assert_eq!(tag_length(algorithm), 16);
    }
    assert_eq!(current_backend(), AeadBackend::Native);
}

#[test]
fn aead_failures_name_the_direction() {
    assert_eq!(
        aead_failure(AeadOperation::Seal, AeadFailureKind::LengthOverflow),
        CryptoError::AeadEncrypt {
            backend: AeadBackend::Native,
            kind: AeadFailureKind::LengthOverflow,
        }
    );
    assert_eq!(
        aead_failure(AeadOperation::Open, AeadFailureKind::AuthenticationFailed),
        CryptoError::AeadDecrypt {
            backend: AeadBackend::Native,
            kind: AeadFailureKind::AuthenticationFailed,
        }
    );
    assert_eq!(
        invalid_output_error(AeadOperation::Seal),
        CryptoError::AeadEncrypt {
            backend: AeadBackend::Native,
            kind: AeadFailureKind::InvalidOutputLength,
        }
    );
}

#[test]
fn aead_operation_errors_become_facade_errors() {
    let seal = AeadOperation::Seal;
    let open = AeadOperation::Open;
    let xchacha = AeadAlgorithm::XChaCha20Poly1305;
    assert_eq!(
        aead_error::crypto_error_from_operation_error(AeadAlgorithm::Aes128Gcm, seal, prim(PrimitiveErrorReason::InvalidKey), 15, 12, 0),
        CryptoError::InvalidAeadKeyLength { expected: 16, actual: 15 }
    );
    assert_eq!(
        aead_error::crypto_error_from_operation_error(xchacha, open, prim(PrimitiveErrorReason::InvalidLength), 32, 12, 40),
        CryptoError::InvalidAeadNonceLength { expected: 24, actual: 12 }
    );
    assert_eq!(
        aead_error::crypto_error_from_operation_error(xchacha, open, prim(PrimitiveErrorReason::InvalidLength), 32, 24, 7),
        CryptoError::InvalidCiphertextLength { minimum: 16, actual: 7 }
    );
    assert_eq!(
        aead_error::crypto_error_from_operation_error(xchacha, seal, prim(PrimitiveErrorReason::InvalidLength), 32, 24, 7),
        aead_failure(seal, AeadFailureKind::BackendFailure)
    );
    assert_eq!(
        aead_error::crypto_error_from_operation_error(xchacha, seal, prim(PrimitiveErrorReason::LengthOverflow), 32, 24, 7),
        aead_failure(seal, AeadFailureKind::LengthOverflow)
    );
    assert_eq!(
        aead_error::crypto_error_from_operation_error(xchacha, seal, prim(PrimitiveErrorReason::VerificationFailed), 32, 24, 7),
        aead_failure(open, AeadFailureKind::AuthenticationFailed)
    );
    assert_eq!(aead_error::crypto_error_from_operation_error(xchacha, open, unsupported(), 32, 24, 7), CryptoError::Unsupported);
    assert_eq!(
        aead_error::crypto_error_from_operation_error(
            xchacha,
            open,
            OperationError::Backend { reason: BackendErrorReason::InvalidOutput },
            32,
            24,
            7
        ),
        aead_failure(open, AeadFailureKind::InvalidOutputLength)
    );
    assert_eq!(
        aead_error::crypto_error_from_operation_error(xchacha, open, internal(), 32, 24, 7),
        aead_failure(open, AeadFailureKind::BackendFailure)
    );
    assert_eq!(
        aead_error::crypto_error_from_operation_error(
            xchacha,
            seal,
            OperationError::Provider { reason: ProviderErrorReason::KeyNotFound },
            32,
            24,
            7
        ),
        aead_failure(seal, AeadFailureKind::BackendFailure)
    );
}

#[test]
fn aead_classification_survives_the_facade() {
    let failures = [
        CryptoError::InvalidKey,
        CryptoError::InvalidAeadNonceLength { expected: 12, actual: 13 },
        CryptoError::AeadEncrypt {
            backend: AeadBackend::Native,
            kind: AeadFailureKind::LengthOverflow,
        },
        CryptoError::AeadDecrypt {
            backend: AeadBackend::Native,
            kind: AeadFailureKind::AuthenticationFailed,
        },
        CryptoError::AeadDecrypt {
            backend: AeadBackend::Native,
            kind: AeadFailureKind::InvalidOutputLength,
        },
        CryptoError::Unsupported,
        CryptoError::Other,
    ];
    for algorithm in AEADS {
        for failure in failures {
            let classified = map_aead_error(failure);
            let facade = aead_error::crypto_error_from_operation_error(algorithm, AeadOperation::Open, classified, 1, 2, 3);
            assert_eq!(map_aead_error(facade), classified);
        }
    }
    let short = map_aead_error(CryptoError::InvalidCiphertextLength { minimum: 16, actual: 2 });
    let facade = aead_error::crypto_error_from_operation_error(AeadAlgorithm::Aes256Gcm, AeadOperation::Seal, short, 32, 12, 2);
    assert_eq!(map_aead_error(facade), internal());
}

#[test]
fn mac_operation_errors_become_facade_errors() {
    assert_eq!(hmac::mac_hash(MacAlgorithm::HmacSha256), MacHash::Sha2_256);
    assert_eq!(hmac::mac_hash(MacAlgorithm::HmacSha384), MacHash::Sha2_384);
    assert_eq!(hmac::mac_hash(MacAlgorithm::HmacSha512), MacHash::Sha2_512);
    assert_eq!(
        hmac::mac_failure_kind(prim(PrimitiveErrorReason::InvalidKey)),
        Some(MacFailureKind::InvalidKeyLength)
    );
    assert_eq!(
        hmac::mac_failure_kind(prim(PrimitiveErrorReason::InvalidLength)),
        Some(MacFailureKind::InvalidTagLength)
    );
    assert_eq!(
        hmac::mac_failure_kind(prim(PrimitiveErrorReason::VerificationFailed)),
        Some(MacFailureKind::VerificationFailed)
    );
    assert_eq!(hmac::mac_failure_kind(unsupported()), None);
    assert_eq!(hmac::mac_failure_kind(internal()), Some(MacFailureKind::BackendFailure));
    assert_eq!(
        hmac::crypto_error_from_operation_error(
            MacAlgorithm::HmacSha512,
            prim(PrimitiveErrorReason::VerificationFailed)
        ),
        CryptoError::Mac { hash: MacHash::Sha2_512, kind: MacFailureKind::VerificationFailed }
    );
    assert_eq!(
        hmac::crypto_error_from_operation_error(MacAlgorithm::HmacSha256, unsupported()),
        CryptoError::Unsupported
    );
    for failure in [
        CryptoError::Mac { hash: MacHash::Sha2_256, kind: MacFailureKind::InvalidKeyLength },
        CryptoError::Mac { hash: MacHash::Sha2_256, kind: MacFailureKind::InvalidTagLength },
        CryptoError::Unsupported,
        CryptoError::Other,
    ] {
        let classified = map_hmac_error(failure);
        let facade = hmac::crypto_error_from_operation_error(MacAlgorithm::HmacSha384, classified);
        assert_eq!(map_hmac_error(facade), classified);
    }
}

#[test]
fn key_wrap_operation_errors_become_facade_errors() {
    let wrap = KeyWrapOperation::Wrap;
    let unwrap = KeyWrapOperation::Unwrap;
    let alg = KeyWrapAlgorithm::Aes192Kw;
    let kw = |operation, kind| CryptoError::KeyWrap { algorithm: alg, operation, kind };
    assert_eq!(
        aes_kw::crypto_error_from_operation_error(alg, wrap, prim(PrimitiveErrorReason::InvalidLength)),
        kw(wrap, KeyWrapFailureKind::InvalidPlaintextLength)
    );
    assert_eq!(
        aes_kw::crypto_error_from_operation_error(alg, unwrap, prim(PrimitiveErrorReason::InvalidLength)),
        kw(unwrap, KeyWrapFailureKind::InvalidWrappedLength)
    );
    assert_eq!(
        aes_kw::crypto_error_from_operation_error(alg, unwrap, prim(PrimitiveErrorReason::InvalidKey)),
        kw(unwrap, KeyWrapFailureKind::InvalidKekLength)
    );
    assert_eq!(
        aes_kw::crypto_error_from_operation_error(alg, wrap, prim(PrimitiveErrorReason::LengthOverflow)),
        kw(wrap, KeyWrapFailureKind::LengthOverflow)
    );
    assert_eq!(
        aes_kw::crypto_error_from_operation_error(
            alg,
            unwrap,
            prim(PrimitiveErrorReason::VerificationFailed)
        ),
        kw(unwrap, KeyWrapFailureKind::IntegrityCheckFailed)
    );
    assert_eq!(
        aes_kw::crypto_error_from_operation_error(alg, wrap, internal()),
        kw(wrap, KeyWrapFailureKind::BackendFailure)
    );
    assert_eq!(
        aes_kw::crypto_error_from_operation_error(alg, wrap, unsupported()),
        CryptoError::Unsupported
    );
    let failure = kw(unwrap, KeyWrapFailureKind::InvalidWrappedLength);
    for operation in [wrap, unwrap] {
        let classified = map_key_wrap_error(failure);
        let facade = aes_kw::crypto_error_from_operation_error(alg, operation, classified);
        assert_eq!(map_key_wrap_error(facade), classified);
    }
}

#[test]
fn hkdf_operation_errors_become_facade_errors() {
    let hkdf = |kind| CryptoError::Hkdf { hash: HkdfHash::Sha2_384, kind };
    assert_eq!(HkdfSuite::Sha2_256.hash(), HkdfHash::Sha2_256);
    assert_eq!(HkdfSuite::Sha2_384.hash(), HkdfHash::Sha2_384);
    let cases = [
        (prim(PrimitiveErrorReason::InvalidKey), hkdf(HkdfFailureKind::InvalidIkmLength)),
        (prim(PrimitiveErrorReason::InvalidLength), hkdf(HkdfFailureKind::InvalidOutputLength)),
        (prim(PrimitiveErrorReason::LengthOverflow), hkdf(HkdfFailureKind::LengthOverflow)),
        (internal(), hkdf(HkdfFailureKind::ExpandFailed)),
        (unsupported(), CryptoError::Unsupported),
    ];
    for (error, expected) in cases {
        assert_eq!(hkdf::crypto_error_from_operation_error(HkdfHash::Sha2_384, error), expected);
        assert_eq!(map_hkdf_error(expected), error);
    }
    let tag_byte = hkdf(HkdfFailureKind::InvalidDomainTagByte);
    let facade = hkdf::crypto_error_from_operation_error(HkdfHash::Sha2_384, map_hkdf_error(tag_byte));
    assert_eq!(map_hkdf_error(facade), map_hkdf_error(tag_byte));
}

#[test]
fn output_kdf_operation_errors_become_facade_errors() {
    assert_eq!(
        kmac::output_kdf_failure_kind(prim(PrimitiveErrorReason::InvalidKey)),
        Some(KdfFailureKind::InvalidSecretLength)
    );
    assert_eq!(
        kmac::output_kdf_failure_kind(prim(PrimitiveErrorReason::InvalidLength)),
        Some(KdfFailureKind::InvalidOutputLength)
    );
    assert_eq!(
        kmac::output_kdf_failure_kind(prim(PrimitiveErrorReason::LengthOverflow)),
        Some(KdfFailureKind::InvalidOutputLength)
    );
    assert_eq!(kmac::output_kdf_failure_kind(unsupported()), None);
    assert_eq!(
        kmac::output_kdf_failure_kind(prim(PrimitiveErrorReason::InvalidParameter)),
        Some(KdfFailureKind::DerivationFailed)
    );
    assert_eq!(
        kmac::crypto_error_from_operation_error(prim(PrimitiveErrorReason::InvalidLength)),
        CryptoError::Kdf {
            algorithm: KdfAlgorithm::Kmac256,
            profile: KdfProfile::Sp800185Kmac256,
            kind: KdfFailureKind::InvalidOutputLength,
        }
    );
    assert_eq!(
        concat_kdf::crypto_error_from_operation_error(prim(PrimitiveErrorReason::InvalidKey)),
        CryptoError::Kdf {
            algorithm: KdfAlgorithm::ConcatKdf,
            profile: KdfProfile::JwaEcdhEsSha256,
            kind: KdfFailureKind::InvalidSecretLength,
        }
    );
    assert_eq!(kmac::crypto_error_from_operation_error(unsupported()), CryptoError::Unsupported);
    assert_eq!(concat_kdf::crypto_error_from_operation_error(unsupported()), CryptoError::Unsupported);
    let salt = CryptoError::Kdf {
        algorithm: KdfAlgorithm::Kmac256,
        profile: KdfProfile::Sp800185Kmac256,
        kind: KdfFailureKind::InvalidSaltLength,
    };
    assert_eq!(map_kdf_error(kmac::crypto_error_from_operation_error(map_kdf_error(salt))), map_kdf_error(salt));
    assert_eq!(map_kdf_error(concat_kdf::crypto_error_from_operation_error(map_kdf_error(salt))), map_kdf_error(salt));
    let params = CryptoError::Kdf {
        algorithm: KdfAlgorithm::Kmac256,
        profile: KdfProfile::Sp800185Kmac256,
        kind: KdfFailureKind::InvalidParams,
    };
    assert_eq!(map_kdf_error(kmac::crypto_error_from_operation_error(map_kdf_error(params))), internal());
}

#[test]
fn argon2id_operation_errors_become_facade_errors() {
    let argon = |profile, kind| CryptoError::Kdf { algorithm: KdfAlgorithm::Argon2id, profile, kind };
    let v1 = KdfProfile::Argon2idV1;
    assert_eq!(
        argon2id::crypto_error_from_operation_error(v1, prim(PrimitiveErrorReason::InvalidKey)),
        argon(v1, KdfFailureKind::InvalidSecretLength)
    );
    assert_eq!(
        argon2id::crypto_error_from_operation_error(v1, prim(PrimitiveErrorReason::InvalidLength)),
        argon(v1, KdfFailureKind::InvalidParams)
    );
    assert_eq!(
        argon2id::crypto_error_from_operation_error(v1, prim(PrimitiveErrorReason::LengthOverflow)),
        argon(v1, KdfFailureKind::InvalidParams)
    );
    assert_eq!(
        argon2id::crypto_error_from_operation_error(KdfProfile::Argon2idV2, internal()),
        argon(KdfProfile::Argon2idV2, KdfFailureKind::DerivationFailed)
    );
    assert_eq!(argon2id::crypto_error_from_operation_error(v1, unsupported()), CryptoError::Unsupported);
    let secret = argon(v1, KdfFailureKind::InvalidSecretLength);
    let facade = argon2id::crypto_error_from_operation_error(v1, map_kdf_error(secret));
    assert_eq!(map_kdf_error(facade), map_kdf_error(secret));
    let salt = argon(v1, KdfFailureKind::InvalidSaltLength);
    let facade = argon2id::crypto_error_from_operation_error(v1, map_kdf_error(salt));
    assert_eq!(map_kdf_error(facade), prim(PrimitiveErrorReason::InvalidParameter));
}

#[test]
fn kem_operation_errors_become_facade_errors() {
    let shared = prim(PrimitiveErrorReason::InvalidSharedSecret);
    assert_eq!(kem_error::crypto_error_from_kem_key_generation_operation_error(prim(PrimitiveErrorReason::InvalidKey)), CryptoError::InvalidKey);
    assert_eq!(kem_error::crypto_error_from_kem_key_generation_operation_error(unsupported()), CryptoError::Unsupported);
    assert_eq!(
        kem_error::crypto_error_from_kem_key_generation_operation_error(shared),
        CryptoError::KemFailure { kind: KemFailureKind::KeyGenerationFailed }
    );
    assert_eq!(kem_error::crypto_error_from_kem_encapsulation_operation_error(prim(PrimitiveErrorReason::InvalidKey)), CryptoError::InvalidKey);
    assert_eq!(kem_error::crypto_error_from_kem_encapsulation_operation_error(shared), kem_error::key_agreement_failed());
    assert_eq!(
        kem_error::key_agreement_failed(),
        CryptoError::KeyAgreementFailure { kind: KeyAgreementFailureKind::DeriveSharedSecretFailed }
    );
    assert_eq!(kem_error::crypto_error_from_kem_encapsulation_operation_error(unsupported()), CryptoError::Unsupported);
    assert_eq!(kem_error::crypto_error_from_kem_encapsulation_operation_error(internal()), kem_error::kem_failed(KemFailureKind::EncapsulateFailed));
    assert_eq!(kem_error::crypto_error_from_kem_decapsulation_operation_error(prim(PrimitiveErrorReason::InvalidKey)), CryptoError::InvalidKey);
    assert_eq!(
        kem_error::crypto_error_from_kem_decapsulation_operation_error(prim(PrimitiveErrorReason::InvalidLength)),
        kem_error::kem_failed(KemFailureKind::DecapsulateFailed)
    );
    assert_eq!(
        kem_error::crypto_error_from_kem_decapsulation_operation_error(prim(PrimitiveErrorReason::VerificationFailed)),
        kem_error::kem_failed(KemFailureKind::DecapsulateFailed)
    );
    assert_eq!(kem_error::crypto_error_from_kem_decapsulation_operation_error(shared), kem_error::kem_failed(KemFailureKind::DecapsulateFailed));
    assert_eq!(kem_error::crypto_error_from_kem_decapsulation_operation_error(unsupported()), CryptoError::Unsupported);
}

#[test]
fn key_agreement_operation_errors_become_facade_errors() {
    assert_eq!(key_agreement_error::crypto_error_from_key_generation_operation_error(prim(PrimitiveErrorReason::InvalidKey)), CryptoError::InvalidKey);
    assert_eq!(key_agreement_error::crypto_error_from_key_generation_operation_error(unsupported()), CryptoError::Unsupported);
    assert_eq!(key_agreement_error::crypto_error_from_key_generation_operation_error(internal()), key_agreement_error::key_generation_failed());
    assert_eq!(
        key_agreement_error::key_generation_failed(),
        CryptoError::KeyAgreementFailure { kind: KeyAgreementFailureKind::KeyGenerationFailed }
    );
    assert_eq!(key_agreement_error::crypto_error_from_derive_shared_secret_operation_error(prim(PrimitiveErrorReason::InvalidKey)), CryptoError::InvalidKey);
    assert_eq!(
        key_agreement_error::crypto_error_from_derive_shared_secret_operation_error(prim(PrimitiveErrorReason::InvalidSharedSecret)),
        key_agreement_error::derive_shared_secret_failed()
    );
    assert_eq!(key_agreement_error::crypto_error_from_derive_shared_secret_operation_error(unsupported()), CryptoError::Unsupported);
    assert_eq!(key_agreement_error::crypto_error_from_derive_shared_secret_operation_error(internal()), key_agreement_error::derive_shared_secret_failed());
    assert_eq!(
        key_agreement_error::derive_shared_secret_failed(),
        CryptoError::KeyAgreementFailure { kind: KeyAgreementFailureKind::DeriveSharedSecretFailed }
    );
}

#[test]
fn dispatch_errors_name_the_algorithm() {
    assert_eq!(
        hash_algorithm_error_from_operation_error(HashAlgorithm::Sha3_512, unsupported()),
        AlgorithmError::UnsupportedHashAlgorithm(HashAlgorithm::Sha3_512)
    );
    assert_eq!(
        hash_algorithm_error_from_operation_error(HashAlgorithm::Sha3_512, internal()),
        AlgorithmError::Crypto(CryptoError::Unsupported)
    );
    assert_eq!(
        aead_algorithm_error_from_operation_error(
            AeadAlgorithm::Aes256GcmSiv,
            AeadOperation::Open,
            unsupported(),
            32,
            12,
            0
        ),
        AlgorithmError::UnsupportedAeadAlgorithm(AeadAlgorithm::Aes256GcmSiv)
    );
    assert_eq!(
        aead_algorithm_error_from_operation_error(
            AeadAlgorithm::Aes256GcmSiv,
            AeadOperation::Open,
            prim(PrimitiveErrorReason::InvalidLength),
            32,
            12,
            5
        ),
        AlgorithmError::Crypto(CryptoError::InvalidCiphertextLength { minimum: 16, actual: 5 })
    );
    assert_eq!(
        mac_algorithm_error_from_operation_error(MacAlgorithm::HmacSha384, unsupported()),
        AlgorithmError::UnsupportedMacAlgorithm(MacAlgorithm::HmacSha384)
    );
    assert_eq!(
        mac_algorithm_error_from_operation_error(
            MacAlgorithm::HmacSha384,
            prim(PrimitiveErrorReason::InvalidKey)
        ),
        AlgorithmError::Crypto(CryptoError::Mac {
            hash: MacHash::Sha2_384,
            kind: MacFailureKind::InvalidKeyLength,
        })
    );
    assert!(matches!(
        AlgorithmError::UnsupportedAlgorithm(Algorithm::Ed25519),
        AlgorithmError::UnsupportedAlgorithm(_)
    ));
}

#[test]
fn parameter_bundles_borrow_caller_buffers() {
    let key = [1u8; 32];
    let nonce = [2u8; 12];
    let aad = b"header";
    let params = AeadParams { key: &key, nonce: &nonce, aad };
    assert_eq!(params.key.len(), key_length(AeadAlgorithm::ChaCha20Poly1305));
    assert_eq!(params.nonce.len(), nonce_length(AeadAlgorithm::ChaCha20Poly1305));
    assert_eq!(params.aad, b"header");
    let mac = MacParams { key: &key[..16] };
    assert_eq!(mac.key, &[1u8; 16]);
}

#[test]
fn unsupported_is_reported_as_unsupported_at_every_layer() {
    let unsupported = unsupported();
    assert_eq!(
        aead_error::crypto_error_from_operation_error(
            AeadAlgorithm::ChaCha20Poly1305,
            AeadOperation::Seal,
            unsupported,
            32,
            12,
            100
        ),
        CryptoError::Unsupported
    );
    assert_eq!(
        hmac::crypto_error_from_operation_error(MacAlgorithm::HmacSha256, unsupported),
        CryptoError::Unsupported
    );
    assert_eq!(
        aes_kw::crypto_error_from_operation_error(
            KeyWrapAlgorithm::Aes128Kw,
            KeyWrapOperation::Unwrap,
            unsupported
        ),
        CryptoError::Unsupported
    );
    assert_eq!(
        hkdf::crypto_error_from_operation_error(HkdfHash::Sha2_512, unsupported),
        CryptoError::Unsupported
    );
    assert_eq!(kmac::crypto_error_from_operation_error(unsupported), CryptoError::Unsupported);
    assert_eq!(
        concat_kdf::crypto_error_from_operation_error(unsupported),
        CryptoError::Unsupported
    );
    assert_eq!(
        argon2id::crypto_error_from_operation_error(KdfProfile::Argon2idV1, unsupported),
        CryptoError::Unsupported
    );
    assert_eq!(map_aead_error(CryptoError::Unsupported), unsupported);
    assert_eq!(map_hmac_error(CryptoError::Unsupported), unsupported);
    assert_eq!(map_key_wrap_error(CryptoError::Unsupported), unsupported);
    assert_eq!(map_hkdf_error(CryptoError::Unsupported), unsupported);
    assert_eq!(map_kdf_error(CryptoError::Unsupported), unsupported);
    assert_eq!(map_operation_error(unsupported), unsupported_algorithm());
}
