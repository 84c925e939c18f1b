//! Platform-key operation vocabulary and its security classification.

use vstd::prelude::*;

use super::OperationFamily;

verus! {

/// Platform-owned key operations represented by the shared domain model.
///
/// This enum is descriptive rather than executable. Apple and Android SDK
/// providers retain custody of platform key handles and must fail closed when
/// an operation is unavailable; the core never substitutes an exportable
/// software key for a platform-owned key.
#[derive(Debug, Clone, Copy, PartialEq, Eq, Hash, Structural)]
#[non_exhaustive]
pub enum PlatformKeyOperation {
    /// Generate a new non-exportable platform key.
    Generate,
    /// Return the public half of an existing platform key.
    GetPublicKey,
    /// Sign with an existing platform key.
    Sign,
    /// Verify with an existing platform key.
    Verify,
    /// Derive a shared secret with an existing platform key.
    DeriveSharedSecret,
    /// Delete an existing platform key.
    Delete,
    /// Request provider attestation for an existing platform key.
    Attest,
}

impl PlatformKeyOperation {
    /// Whether the operation works on a previously created key handle: every
    /// operation except generation.
    pub open spec fn spec_requires_existing_key(self) -> bool {
        self != PlatformKeyOperation::Generate
    }

    /// Whether successful execution can produce secret material: only
    /// shared-secret derivation.
    pub open spec fn spec_produces_secret_material(self) -> bool {
        self == PlatformKeyOperation::DeriveSharedSecret
    }

    /// Returns the semantic operation family used by policy and telemetry.
    #[must_use]
    pub fn family(self) -> (family: OperationFamily)
        ensures
            family == OperationFamily::PlatformKey,
    {
        OperationFamily::PlatformKey
    }

    /// Returns whether the operation requires a previously created key handle.
    #[must_use]
    pub fn requires_existing_key(self) -> (required: bool)
        ensures
            required == self.spec_requires_existing_key(),
    {
        match self {
            PlatformKeyOperation::Generate => false,
            _ => true,
        }
    }

    /// Returns whether successful execution can produce secret material.
    ///
    /// Callers use this classification to require a zeroizing managed owner for
    /// the shared-secret result before crossing an SDK or FFI boundary.
    #[must_use]
    pub fn produces_secret_material(self) -> (secret: bool)
        ensures
            secret == self.spec_produces_secret_material(),
    {
        match self {
            PlatformKeyOperation::DeriveSharedSecret => true,
            _ => false,
        }
    }
}

} // verus!
