//! Semantic owner for public-key byte encoding helpers.

use vstd::prelude::*;

use super::{BackendErrorReason, OperationError, PrimitiveErrorReason, ProviderErrorReason};
use crate::crypto_error::{CryptoError, SignatureFailureKind};

verus! {

/// The error every rejected public-key encoding reports.
pub fn invalid_public_key() -> (error: OperationError)
    ensures
        error == (OperationError::Primitive { reason: PrimitiveErrorReason::InvalidPublicKey }),
{
    OperationError::Primitive { reason: PrimitiveErrorReason::InvalidPublicKey }
}

/// Validates a fixed-width public key and returns its canonical byte form.
pub fn copy_fixed_public_key(public_key: &[u8], expected_len: usize) -> (outcome: Result<
    Vec<u8>,
    OperationError,
>)
    ensures
        public_key@.len() == expected_len ==> (outcome matches Ok(copy) && copy@ == public_key@),
        public_key@.len() != expected_len ==> outcome == Err::<Vec<u8>, OperationError>(
            OperationError::Primitive { reason: PrimitiveErrorReason::InvalidPublicKey },
        ),
{
    if public_key.len() != expected_len {
        return Err(invalid_public_key());
    }
    Ok(vstd::slice::slice_to_vec(public_key))
}

/// Classifies a public-key encoding failure reported by a curve primitive.
pub fn map_public_key_error(error: CryptoError) -> (mapped: OperationError)
    ensures
        mapped == match error {
            CryptoError::InvalidKey => OperationError::Primitive {
                reason: PrimitiveErrorReason::InvalidPublicKey,
            },
            CryptoError::Signature { kind: SignatureFailureKind::InvalidPublicKey, .. } =>
                OperationError::Primitive { reason: PrimitiveErrorReason::InvalidPublicKey },
            CryptoError::Unsupported => OperationError::Provider {
                reason: ProviderErrorReason::UnsupportedAlgorithm,
            },
            _ => OperationError::Backend { reason: BackendErrorReason::Internal },
        },
{
    match error {
        CryptoError::InvalidKey => invalid_public_key(),
        CryptoError::Signature { kind: SignatureFailureKind::InvalidPublicKey, .. } =>
            invalid_public_key(),
        CryptoError::Unsupported => OperationError::Provider {
            reason: ProviderErrorReason::UnsupportedAlgorithm,
        },
        _ => OperationError::Backend { reason: BackendErrorReason::Internal },
    }
}

} // verus!
