//! Operation-family vocabulary shared by policy and telemetry.

use vstd::prelude::*;

verus! {

/// Operation families that each receive one semantic implementation path.
#[derive(Debug, Clone, Copy, PartialEq, Eq, Hash, Structural)]
#[non_exhaustive]
pub enum OperationFamily {
    /// Hash digest operations.
    Hash,
    /// Constant-time comparison operations.
    ConstantTime,
    /// Message authentication code operations.
    Mac,
    /// Authenticated encryption operations.
    Aead,
    /// AES Key Wrap operations.
    KeyWrap,
    /// Key derivation operations.
    Kdf,
    /// Signature key management, signing, and verification operations.
    Signature,
    /// Raw key-agreement operations.
    KeyAgreement,
    /// Key encapsulation operations.
    Kem,
    /// HPKE seal/open protocol operations.
    Hpke,
    /// Hardware-backed platform-key lifecycle and use operations.
    PlatformKey,
}

} // verus!
