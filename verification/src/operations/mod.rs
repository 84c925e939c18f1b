//! Semantic operation-layer conventions.
//!
//! Each operation family is the semantic owner for every public route that
//! exposes it: its algorithm gates, parameter policy, and the classification
//! of primitive failures into one typed, redacted error contract.

pub mod aead;
pub mod constant_time;
pub mod error;
pub mod family;
pub mod hpke;
pub mod kdf;
pub mod kem;
pub mod key_agreement;
pub mod key_encoding;
pub mod key_wrap;
pub mod mac;
pub mod platform_key;
pub mod random;
pub mod signature;

pub use self::error::{
    BackendErrorReason, OperationError, PrimitiveErrorReason, ProviderErrorReason,
};
pub use self::family::OperationFamily;
