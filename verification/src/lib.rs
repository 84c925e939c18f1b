//! Verified operation-layer core of the ReallyMe cryptography facade.
//!
//! The crate holds the semantic decisions that every adapter boundary shares:
//! the typed, redacted error taxonomy; the mapping of primitive failures
//! into operation errors and back into facade errors; algorithm classification
//! and parameter tables; constant-time equality; and the mapping of operation
//! outcomes onto the stable wire-error contract.

pub mod aead_error;
pub mod aes_kw;
pub mod algorithm;
pub mod argon2id;
pub mod concat_kdf;
pub mod crypto_error;
pub mod dispatch;
pub mod hkdf;
pub mod hmac;
pub mod kem_error;
pub mod key_agreement_error;
pub mod kmac;
pub mod laws;
pub mod operation_contract;
pub mod operations;
