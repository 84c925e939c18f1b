//! Stable wire-error construction for the structured operation boundary.

use vstd::prelude::*;

verus! {

/// Origin branch of a wire error.
#[derive(Debug, Clone, Copy, PartialEq, Eq, Hash, Structural)]
pub enum CryptoWireErrorBranch {
    /// The primitive rejected caller-controlled data or verification failed.
    Primitive,
    /// Provider policy, availability, or lane support rejected the request.
    Provider,
    /// Backend execution failed.
    Backend,
    /// The request or response could not be decoded or encoded.
    Wire,
}

/// Stable wire-error reasons of the operation contract.
#[derive(Debug, Clone, Copy, PartialEq, Eq, Hash, Structural)]
pub enum CryptoErrorReason {
    /// The request named no operation.
    PrimitiveMissingOperation,
    /// A parameter violated its protocol contract.
    PrimitiveInvalidParameter,
    /// Key material was rejected.
    PrimitiveInvalidKey,
    /// A public key was rejected.
    PrimitiveInvalidPublicKey,
    /// A private key was rejected.
    PrimitiveInvalidPrivateKey,
    /// A ciphertext or encapsulated key was malformed.
    PrimitiveMalformedCiphertext,
    /// A length was invalid or overflowed.
    PrimitiveInvalidLength,
    /// Authentication or verification failed.
    PrimitiveAuthenticationFailed,
    /// A raw shared secret failed validation.
    PrimitiveInvalidSharedSecret,
    /// The algorithm is not supported by the provider.
    ProviderUnsupportedAlgorithm,
    /// The provider is unavailable.
    ProviderUnavailable,
    /// A backend produced output that violates the contract.
    BackendInvalidState,
    /// A backend failed internally.
    BackendInternal,
    /// The message could not be decoded or encoded.
    WireMalformedProtobuf,
}

/// Branch every reason belongs to.
pub open spec fn spec_reason_branch(reason: CryptoErrorReason) -> CryptoWireErrorBranch {
    match reason {
        CryptoErrorReason::PrimitiveMissingOperation
        | CryptoErrorReason::PrimitiveInvalidParameter
        | CryptoErrorReason::PrimitiveInvalidKey
        | CryptoErrorReason::PrimitiveInvalidPublicKey
        | CryptoErrorReason::PrimitiveInvalidPrivateKey
        | CryptoErrorReason::PrimitiveMalformedCiphertext
        | CryptoErrorReason::PrimitiveInvalidLength
        | CryptoErrorReason::PrimitiveAuthenticationFailed
        | CryptoErrorReason::PrimitiveInvalidSharedSecret => CryptoWireErrorBranch::Primitive,
        CryptoErrorReason::ProviderUnsupportedAlgorithm
        | CryptoErrorReason::ProviderUnavailable => CryptoWireErrorBranch::Provider,
        CryptoErrorReason::BackendInvalidState
        | CryptoErrorReason::BackendInternal => CryptoWireErrorBranch::Backend,
        CryptoErrorReason::WireMalformedProtobuf => CryptoWireErrorBranch::Wire,
    }
}

/// Branch every reason belongs to.
pub fn reason_branch(reason: CryptoErrorReason) -> (branch: CryptoWireErrorBranch)
    ensures
        branch == spec_reason_branch(reason),
{
    match reason {
        CryptoErrorReason::PrimitiveMissingOperation
        | CryptoErrorReason::PrimitiveInvalidParameter
        | CryptoErrorReason::PrimitiveInvalidKey
        | CryptoErrorReason::PrimitiveInvalidPublicKey
        | CryptoErrorReason::PrimitiveInvalidPrivateKey
        | CryptoErrorReason::PrimitiveMalformedCiphertext
        | CryptoErrorReason::PrimitiveInvalidLength
        | CryptoErrorReason::PrimitiveAuthenticationFailed
        | CryptoErrorReason::PrimitiveInvalidSharedSecret => CryptoWireErrorBranch::Primitive,
        CryptoErrorReason::ProviderUnsupportedAlgorithm
        | CryptoErrorReason::ProviderUnavailable => CryptoWireErrorBranch::Provider,
        CryptoErrorReason::BackendInvalidState
        | CryptoErrorReason::BackendInternal => CryptoWireErrorBranch::Backend,
        CryptoErrorReason::WireMalformedProtobuf => CryptoWireErrorBranch::Wire,
    }
}

/// A typed wire error: a branch and a reason of that branch.
#[derive(Debug, Clone, Copy, PartialEq, Eq, Structural)]
pub struct CryptoWireError {
    /// Origin branch.
    pub branch: CryptoWireErrorBranch,
    /// Stable reason.
    pub reason: CryptoErrorReason,
}

impl CryptoWireError {
    /// Well-formed: the reason belongs to the branch.
    pub open spec fn wf(self) -> bool {
        spec_reason_branch(self.reason) == self.branch
    }

    /// Builds a wire error when the reason belongs to the branch.
    pub fn try_new(branch: CryptoWireErrorBranch, reason: CryptoErrorReason) -> (error: Option<
        CryptoWireError,
    >)
        ensures
            spec_reason_branch(reason) == branch ==> error == Some(CryptoWireError { branch, reason }),
            spec_reason_branch(reason) != branch ==> error is None,
    {
        if reason_branch(reason) == branch {
            Some(CryptoWireError { branch, reason })
        } else {
            None
        }
    }

    /// The error reported for a message that cannot be decoded or encoded.
    pub fn malformed_protobuf() -> (error: CryptoWireError)
        ensures
            error == (CryptoWireError {
                branch: CryptoWireErrorBranch::Wire,
                reason: CryptoErrorReason::WireMalformedProtobuf,
            }),
    {
        CryptoWireError {
            branch: CryptoWireErrorBranch::Wire,
            reason: CryptoErrorReason::WireMalformedProtobuf,
        }
    }
}

/// Wire error with the given branch and reason; a reason that does not belong
/// to the branch yields the malformed-message error instead.
pub open spec fn spec_wire_error(
    branch: CryptoWireErrorBranch,
    reason: CryptoErrorReason,
) -> CryptoWireError {
    if spec_reason_branch(reason) == branch {
        CryptoWireError { branch, reason }
    } else {
        CryptoWireError {
            branch: CryptoWireErrorBranch::Wire,
            reason: CryptoErrorReason::WireMalformedProtobuf,
        }
    }
}

/// Wire error with the given branch and reason; a reason that does not belong
/// to the branch yields the malformed-message error instead.
pub fn wire_error(branch: CryptoWireErrorBranch, reason: CryptoErrorReason) -> (error:
    CryptoWireError)
    ensures
        error == spec_wire_error(branch, reason),
        error.wf(),
{
    match CryptoWireError::try_new(branch, reason) {
        Some(error) => error,
        None => CryptoWireError::malformed_protobuf(),
    }
}

/// The wire error of an unsupported algorithm.
pub open spec fn spec_unsupported_algorithm() -> CryptoWireError {
    CryptoWireError {
        branch: CryptoWireErrorBranch::Provider,
        reason: CryptoErrorReason::ProviderUnsupportedAlgorithm,
    }
}

/// The wire error of a parameter that violates the protocol contract.
pub open spec fn spec_invalid_parameter() -> CryptoWireError {
    CryptoWireError {
        branch: CryptoWireErrorBranch::Primitive,
        reason: CryptoErrorReason::PrimitiveInvalidParameter,
    }
}

/// The wire error of an unsupported algorithm.
pub fn unsupported_algorithm() -> (error: CryptoWireError)
    ensures
        error == spec_unsupported_algorithm(),
{
    wire_error(CryptoWireErrorBranch::Provider, CryptoErrorReason::ProviderUnsupportedAlgorithm)
}

/// The wire error of a parameter that violates the protocol contract.
pub fn invalid_parameter() -> (error: CryptoWireError)
    ensures
        error == spec_invalid_parameter(),
{
    wire_error(CryptoWireErrorBranch::Primitive, CryptoErrorReason::PrimitiveInvalidParameter)
}

/// The wire error of a request that names no operation.
pub fn missing_operation() -> (error: CryptoWireError)
    ensures
        error == (CryptoWireError {
            branch: CryptoWireErrorBranch::Primitive,
            reason: CryptoErrorReason::PrimitiveMissingOperation,
        }),
{
    wire_error(CryptoWireErrorBranch::Primitive, CryptoErrorReason::PrimitiveMissingOperation)
}

} // verus!
