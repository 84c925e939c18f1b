//! Structured operation boundary: the decisions that turn a typed operation
//! request into a typed result or a stable wire error.
//!
//! Wire-format decoding and encoding stay outside this library; this module
//! owns algorithm-identifier validation, the mapping of semantic operation
//! errors onto wire errors, and the shape of verification results.

pub mod algorithms;
pub mod hpke;
pub mod identifier;
pub mod kdf;
pub mod key_agreement_algorithms;
pub mod operation_error;
pub mod signature;
pub mod signature_algorithms;
pub mod wire_error;
