//! Semantic owner for HPKE key management, encryption, and export: the
//! operation-boundary input policy and the classification of HPKE failures.

use vstd::prelude::*;

use super::error::primitive;
use super::{BackendErrorReason, OperationError, PrimitiveErrorReason, ProviderErrorReason};
use crate::crypto_error::HpkeError;

verus! {

/// Minimum IKM length accepted by operation and serialized HPKE boundaries.
///
/// The raw HPKE primitive retains the KEM-defined non-empty input contract for
/// conformance and protocol-specific use. Public operation transports apply a
/// 256-bit floor so accidental low-entropy caller input fails closed.
pub const HPKE_OPERATION_MIN_INPUT_KEY_MATERIAL_LEN: usize = 32;

/// Applies the operation-boundary floor on input keying material before a
/// keypair is derived from it.
pub fn require_operation_input_key_material(input_key_material: &[u8]) -> (outcome: Result<
    (),
    OperationError,
>)
    ensures
        input_key_material@.len() >= 32 ==> outcome is Ok,
        input_key_material@.len() < 32 ==> outcome == Err::<(), OperationError>(
            OperationError::Primitive { reason: PrimitiveErrorReason::InvalidLength },
        ),
{
    if input_key_material.len() < HPKE_OPERATION_MIN_INPUT_KEY_MATERIAL_LEN {
        return Err(primitive(PrimitiveErrorReason::InvalidLength));
    }
    Ok(())
}

/// Operation error for a failure the HPKE primitive reports.
pub open spec fn hpke_error(error: HpkeError) -> OperationError {
    match error {
        HpkeError::UnsupportedKem
        | HpkeError::UnsupportedKdf
        | HpkeError::UnsupportedAead
        | HpkeError::UnsupportedSuite => OperationError::Provider {
            reason: ProviderErrorReason::UnsupportedAlgorithm,
        },
        HpkeError::InvalidPublicKey => OperationError::Primitive {
            reason: PrimitiveErrorReason::InvalidPublicKey,
        },
        HpkeError::InvalidPrivateKey => OperationError::Primitive {
            reason: PrimitiveErrorReason::InvalidPrivateKey,
        },
        HpkeError::InvalidEncapsulatedKey | HpkeError::InvalidCiphertext =>
            OperationError::Primitive { reason: PrimitiveErrorReason::MalformedCiphertext },
        HpkeError::InvalidInputKeyMaterial
        | HpkeError::InvalidInfoLength
        | HpkeError::InvalidExporterLength => OperationError::Primitive {
            reason: PrimitiveErrorReason::InvalidLength,
        },
        HpkeError::LengthOverflow => OperationError::Primitive {
            reason: PrimitiveErrorReason::LengthOverflow,
        },
        HpkeError::InvalidPsk | HpkeError::InvalidPskIdentifier | HpkeError::InvalidRandomness =>
            OperationError::Primitive { reason: PrimitiveErrorReason::InvalidParameter },
        HpkeError::OpenFailed => OperationError::Primitive {
            reason: PrimitiveErrorReason::VerificationFailed,
        },
        HpkeError::RandomnessUnavailable => OperationError::Provider {
            reason: ProviderErrorReason::RandomnessUnavailable,
        },
        _ => OperationError::Backend { reason: BackendErrorReason::Internal },
    }
}

/// Classifies a failure the HPKE primitive reports.
pub fn map_hpke_error(error: HpkeError) -> (mapped: OperationError)
    ensures
        mapped == hpke_error(error),
{
    match error {
        HpkeError::UnsupportedKem
        | HpkeError::UnsupportedKdf
        | HpkeError::UnsupportedAead
        | HpkeError::UnsupportedSuite => OperationError::Provider {
            reason: ProviderErrorReason::UnsupportedAlgorithm,
        },
        HpkeError::InvalidPublicKey => primitive(PrimitiveErrorReason::InvalidPublicKey),
        HpkeError::InvalidPrivateKey => primitive(PrimitiveErrorReason::InvalidPrivateKey),
        HpkeError::InvalidEncapsulatedKey | HpkeError::InvalidCiphertext => primitive(
            PrimitiveErrorReason::MalformedCiphertext,
        ),
        HpkeError::InvalidInputKeyMaterial
        | HpkeError::InvalidInfoLength
        | HpkeError::InvalidExporterLength => primitive(PrimitiveErrorReason::InvalidLength),
        HpkeError::LengthOverflow => primitive(PrimitiveErrorReason::LengthOverflow),
        HpkeError::InvalidPsk | HpkeError::InvalidPskIdentifier | HpkeError::InvalidRandomness =>
            primitive(PrimitiveErrorReason::InvalidParameter),
        HpkeError::OpenFailed => primitive(PrimitiveErrorReason::VerificationFailed),
        HpkeError::RandomnessUnavailable => OperationError::Provider {
            reason: ProviderErrorReason::RandomnessUnavailable,
        },
        HpkeError::SealFailed | HpkeError::ExportFailed | HpkeError::KeyGenerationFailed =>
            OperationError::Backend { reason: BackendErrorReason::Internal },
        _ => OperationError::Backend { reason: BackendErrorReason::Internal },
    }
}

} // verus!
