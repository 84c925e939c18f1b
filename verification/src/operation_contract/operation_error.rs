//! Semantic-operation to wire error mapping.

use vstd::prelude::*;

use super::identifier::CryptoAlgorithmIdentifier;
use super::wire_error::{
    invalid_parameter, unsupported_algorithm, wire_error, CryptoErrorReason, CryptoWireError,
    CryptoWireErrorBranch,
};
use crate::operations::{
    BackendErrorReason, OperationError, PrimitiveErrorReason, ProviderErrorReason,
};

verus! {

/// Wire reason an operation error is reported with.
pub open spec fn spec_wire_reason(error: OperationError) -> CryptoErrorReason {
    match error {
        OperationError::Provider { reason: ProviderErrorReason::UnsupportedAlgorithm } =>
            CryptoErrorReason::ProviderUnsupportedAlgorithm,
        OperationError::Provider { .. } => CryptoErrorReason::ProviderUnavailable,
        OperationError::Primitive { reason } => match reason {
            PrimitiveErrorReason::InvalidKey => CryptoErrorReason::PrimitiveInvalidKey,
            PrimitiveErrorReason::InvalidPublicKey => CryptoErrorReason::PrimitiveInvalidPublicKey,
            PrimitiveErrorReason::InvalidPrivateKey =>
                CryptoErrorReason::PrimitiveInvalidPrivateKey,
            PrimitiveErrorReason::MalformedCiphertext =>
                CryptoErrorReason::PrimitiveMalformedCiphertext,
            PrimitiveErrorReason::InvalidLength | PrimitiveErrorReason::LengthOverflow =>
                CryptoErrorReason::PrimitiveInvalidLength,
            PrimitiveErrorReason::VerificationFailed =>
                CryptoErrorReason::PrimitiveAuthenticationFailed,
            PrimitiveErrorReason::InvalidSharedSecret =>
                CryptoErrorReason::PrimitiveInvalidSharedSecret,
            _ => CryptoErrorReason::PrimitiveInvalidParameter,
        },
        OperationError::Backend { reason: BackendErrorReason::InvalidOutput } =>
            CryptoErrorReason::BackendInvalidState,
        OperationError::Backend { .. } => CryptoErrorReason::BackendInternal,
    }
}

/// Wire branch an operation error originates from.
pub open spec fn spec_origin_branch(error: OperationError) -> CryptoWireErrorBranch {
    match error {
        OperationError::Primitive { .. } => CryptoWireErrorBranch::Primitive,
        OperationError::Provider { .. } => CryptoWireErrorBranch::Provider,
        OperationError::Backend { .. } => CryptoWireErrorBranch::Backend,
    }
}

/// Wire error an operation error is reported with.
pub fn map_operation_error(error: OperationError) -> (mapped: CryptoWireError)
    ensures
        mapped == (CryptoWireError {
            branch: spec_origin_branch(error),
            reason: spec_wire_reason(error),
        }),
        mapped.wf(),
{
    match error {
        OperationError::Provider { reason: ProviderErrorReason::UnsupportedAlgorithm } =>
            unsupported_algorithm(),
        OperationError::Provider { .. } => wire_error(
            CryptoWireErrorBranch::Provider,
            CryptoErrorReason::ProviderUnavailable,
        ),
        OperationError::Primitive { reason: PrimitiveErrorReason::InvalidKey } => wire_error(
            CryptoWireErrorBranch::Primitive,
            CryptoErrorReason::PrimitiveInvalidKey,
        ),
        OperationError::Primitive { reason: PrimitiveErrorReason::InvalidPublicKey } => wire_error(
            CryptoWireErrorBranch::Primitive,
            CryptoErrorReason::PrimitiveInvalidPublicKey,
        ),
        OperationError::Primitive { reason: PrimitiveErrorReason::InvalidPrivateKey } => wire_error(
            CryptoWireErrorBranch::Primitive,
            CryptoErrorReason::PrimitiveInvalidPrivateKey,
        ),
        OperationError::Primitive { reason: PrimitiveErrorReason::MalformedCiphertext } =>
            wire_error(
            CryptoWireErrorBranch::Primitive,
            CryptoErrorReason::PrimitiveMalformedCiphertext,
        ),
        OperationError::Primitive { reason: PrimitiveErrorReason::InvalidParameter } =>
            invalid_parameter(),
        OperationError::Primitive { reason: PrimitiveErrorReason::InvalidLength }
        | OperationError::Primitive { reason: PrimitiveErrorReason::LengthOverflow } => wire_error(
            CryptoWireErrorBranch::Primitive,
            CryptoErrorReason::PrimitiveInvalidLength,
        ),
        OperationError::Primitive { reason: PrimitiveErrorReason::VerificationFailed } =>
            wire_error(
            CryptoWireErrorBranch::Primitive,
            CryptoErrorReason::PrimitiveAuthenticationFailed,
        ),
        OperationError::Primitive { reason: PrimitiveErrorReason::InvalidSharedSecret } =>
            wire_error(
            CryptoWireErrorBranch::Primitive,
            CryptoErrorReason::PrimitiveInvalidSharedSecret,
        ),
        OperationError::Primitive { .. } => invalid_parameter(),
        OperationError::Backend { reason: BackendErrorReason::InvalidOutput } => wire_error(
            CryptoWireErrorBranch::Backend,
            CryptoErrorReason::BackendInvalidState,
        ),
        OperationError::Backend { .. } => wire_error(
            CryptoWireErrorBranch::Backend,
            CryptoErrorReason::BackendInternal,
        ),
    }
}

/// Whether the operation error is a verification mismatch: the one failure a
/// verification operation reports as an invalid result rather than an error.
pub fn is_operation_verification_mismatch(error: &OperationError) -> (mismatch: bool)
    ensures
        mismatch == (*error == (OperationError::Primitive {
            reason: PrimitiveErrorReason::VerificationFailed,
        })),
{
    match error {
        OperationError::Primitive { reason: PrimitiveErrorReason::VerificationFailed } => true,
        _ => false,
    }
}

/// Status of a verification result.
#[derive(Debug, Clone, Copy, PartialEq, Eq, Hash, Structural)]
pub enum CryptoVerificationStatus {
    /// The signature or tag verified.
    Valid,
    /// The signature or tag did not verify.
    Invalid,
    /// Verification could not be carried out.
    Error,
}

/// Result of a signature or MAC verification.
#[derive(Debug, Clone, Copy, PartialEq, Eq, Structural)]
pub struct CryptoVerificationResult {
    /// Algorithm that verified.
    pub algorithm: CryptoAlgorithmIdentifier,
    /// Outcome.
    pub status: CryptoVerificationStatus,
    /// Error that prevented verification, when there is one.
    pub error: Option<CryptoWireError>,
}

/// Verification result for the algorithm: valid when verified without error,
/// invalid when not verified without error, and an error whenever an error is
/// given.
pub fn verification_result(
    algorithm: CryptoAlgorithmIdentifier,
    verified: bool,
    error: Option<CryptoWireError>,
) -> (result: CryptoVerificationResult)
    ensures
        result.algorithm == algorithm,
        result.error == error,
        result.status == if error is Some {
            CryptoVerificationStatus::Error
        } else if verified {
            CryptoVerificationStatus::Valid
        } else {
            CryptoVerificationStatus::Invalid
        },
{
    let status = match (verified, error) {
        (true, None) => CryptoVerificationStatus::Valid,
        (false, None) => CryptoVerificationStatus::Invalid,
        (false, Some(_)) | (true, Some(_)) => CryptoVerificationStatus::Error,
    };
    CryptoVerificationResult { algorithm, status, error }
}

/// Verification result for the outcome of a verification operation: success
/// is valid, a verification mismatch is invalid with no error, and any other
/// failure is an error carrying its wire error.
pub fn verification_result_from_outcome(
    algorithm: CryptoAlgorithmIdentifier,
    outcome: Result<(), OperationError>,
) -> (result: CryptoVerificationResult)
    ensures
        result.algorithm == algorithm,
        match outcome {
            Ok(()) => result.status == CryptoVerificationStatus::Valid && result.error is None,
            Err(error) => if error == (OperationError::Primitive {
                reason: PrimitiveErrorReason::VerificationFailed,
            }) {
                result.status == CryptoVerificationStatus::Invalid && result.error is None
            } else {
                result.status == CryptoVerificationStatus::Error && result.error == Some(
                    CryptoWireError {
                        branch: spec_origin_branch(error),
                        reason: spec_wire_reason(error),
                    },
                )
            },
        },
{
    match outcome {
        Ok(()) => verification_result(algorithm, true, None),
        Err(error) => {
            if is_operation_verification_mismatch(&error) {
                verification_result(algorithm, false, None)
            } else {
                verification_result(algorithm, false, Some(map_operation_error(error)))
            }
        },
    }
}

} // verus!
