use vstd::prelude::*;

verus! {

/// Primitive-origin failure reasons.
#[derive(Debug, Clone, Copy, PartialEq, Eq, Structural)]
#[non_exhaustive]
pub enum PrimitiveErrorReason {
    /// A required algorithm selector was absent.
    MissingAlgorithm,
    /// A required operation selector was absent.
    MissingOperation,
    /// Key material failed length or mathematical validity checks.
    InvalidKey,
    /// A public key failed length, encoding, or mathematical validity checks.
    InvalidPublicKey,
    /// A private key failed length, encoding, or mathematical validity checks.
    InvalidPrivateKey,
    /// A ciphertext or encapsulated key failed structural validation.
    MalformedCiphertext,
    /// A typed operation parameter violated its protocol contract.
    InvalidParameter,
    /// Nonce, IV, salt, tag, signature, or ciphertext length was invalid.
    InvalidLength,
    /// A checked buffer length, offset, or capacity calculation overflowed.
    LengthOverflow,
    /// Authentication, MAC, signature, or constant-time equality failed.
    VerificationFailed,
    /// A raw key-agreement output failed contributory or shape validation.
    InvalidSharedSecret,
    /// A primitive resource limit was exceeded.
    ResourceLimitExceeded,
}

impl PrimitiveErrorReason {
    /// Fixed human-readable text of the reason.
    pub fn as_str(&self) -> (text: &'static str)
        ensures
            text@ == match *self {
                PrimitiveErrorReason::MissingAlgorithm => "missing algorithm"@,
                PrimitiveErrorReason::MissingOperation => "missing operation"@,
                PrimitiveErrorReason::InvalidKey => "invalid key"@,
                PrimitiveErrorReason::InvalidPublicKey => "invalid public key"@,
                PrimitiveErrorReason::InvalidPrivateKey => "invalid private key"@,
                PrimitiveErrorReason::MalformedCiphertext => "malformed ciphertext"@,
                PrimitiveErrorReason::InvalidParameter => "invalid parameter"@,
                PrimitiveErrorReason::InvalidLength => "invalid length"@,
                PrimitiveErrorReason::LengthOverflow => "length overflow"@,
                PrimitiveErrorReason::VerificationFailed => "verification failed"@,
                PrimitiveErrorReason::InvalidSharedSecret => "invalid shared secret"@,
                PrimitiveErrorReason::ResourceLimitExceeded => "resource limit exceeded"@,
            },
    {
        match self {
            PrimitiveErrorReason::MissingAlgorithm => "missing algorithm",
            PrimitiveErrorReason::MissingOperation => "missing operation",
            PrimitiveErrorReason::InvalidKey => "invalid key",
            PrimitiveErrorReason::InvalidPublicKey => "invalid public key",
            PrimitiveErrorReason::InvalidPrivateKey => "invalid private key",
            PrimitiveErrorReason::MalformedCiphertext => "malformed ciphertext",
            PrimitiveErrorReason::InvalidParameter => "invalid parameter",
            PrimitiveErrorReason::InvalidLength => "invalid length",
            PrimitiveErrorReason::LengthOverflow => "length overflow",
            PrimitiveErrorReason::VerificationFailed => "verification failed",
            PrimitiveErrorReason::InvalidSharedSecret => "invalid shared secret",
            PrimitiveErrorReason::ResourceLimitExceeded => "resource limit exceeded",
        }
    }
}


/// Provider-origin failure reasons.
#[derive(Debug, Clone, Copy, PartialEq, Eq, Structural)]
#[non_exhaustive]
pub enum ProviderErrorReason {
    /// The selected algorithm is not supported by the selected lane/provider.
    UnsupportedAlgorithm,
    /// The requested provider is unavailable in this build or on this device.
    ProviderUnavailable,
    /// The selected provider could not obtain cryptographic randomness.
    RandomnessUnavailable,
    /// Policy forbids fallback or cross-lane substitution for this operation.
    FallbackProhibited,
    /// Required platform authentication or hardware state is unavailable.
    PlatformUnavailable,
    /// A persistent platform key already exists for the requested identifier.
    KeyExists,
    /// The requested persistent platform key does not exist.
    KeyNotFound,
    /// Platform access-control policy denied the operation.
    AccessDenied,
    /// The platform requires user authentication before continuing.
    UserAuthenticationRequired,
    /// The user canceled an authentication or consent operation.
    UserCanceled,
    /// The requested hardware-backed security level is unavailable.
    HardwareUnavailable,
    /// The hardware provider rejected the key or operation.
    HardwareRejectedKey,
}

impl ProviderErrorReason {
    /// Fixed human-readable text of the reason.
    pub fn as_str(&self) -> (text: &'static str)
        ensures
            text@ == match *self {
                ProviderErrorReason::UnsupportedAlgorithm => "unsupported algorithm"@,
                ProviderErrorReason::ProviderUnavailable => "provider unavailable"@,
                ProviderErrorReason::RandomnessUnavailable => "provider randomness unavailable"@,
                ProviderErrorReason::FallbackProhibited => "fallback prohibited"@,
                ProviderErrorReason::PlatformUnavailable => "platform unavailable"@,
                ProviderErrorReason::KeyExists => "key exists"@,
                ProviderErrorReason::KeyNotFound => "key not found"@,
                ProviderErrorReason::AccessDenied => "access denied"@,
                ProviderErrorReason::UserAuthenticationRequired => "user authentication required"@,
                ProviderErrorReason::UserCanceled => "user canceled"@,
                ProviderErrorReason::HardwareUnavailable => "hardware unavailable"@,
                ProviderErrorReason::HardwareRejectedKey => "hardware rejected key"@,
            },
    {
        match self {
            ProviderErrorReason::UnsupportedAlgorithm => "unsupported algorithm",
            ProviderErrorReason::ProviderUnavailable => "provider unavailable",
            ProviderErrorReason::RandomnessUnavailable => "provider randomness unavailable",
            ProviderErrorReason::FallbackProhibited => "fallback prohibited",
            ProviderErrorReason::PlatformUnavailable => "platform unavailable",
            ProviderErrorReason::KeyExists => "key exists",
            ProviderErrorReason::KeyNotFound => "key not found",
            ProviderErrorReason::AccessDenied => "access denied",
            ProviderErrorReason::UserAuthenticationRequired => "user authentication required",
            ProviderErrorReason::UserCanceled => "user canceled",
            ProviderErrorReason::HardwareUnavailable => "hardware unavailable",
            ProviderErrorReason::HardwareRejectedKey => "hardware rejected key",
        }
    }
}

/// Backend-origin failure reasons.
#[derive(Debug, Clone, Copy, PartialEq, Eq, Structural)]
#[non_exhaustive]
pub enum BackendErrorReason {
    /// A backend returned an output shape that violates the operation contract.
    InvalidOutput,
    /// A panic firewall or equivalent adapter guard caught an unexpected fault.
    PanicContained,
    /// A backend reported a fixed, redacted internal failure.
    Internal,
}

impl BackendErrorReason {
    /// Fixed human-readable text of the reason.
    pub fn as_str(&self) -> (text: &'static str)
        ensures
            text@ == match *self {
                BackendErrorReason::InvalidOutput => "invalid output"@,
                BackendErrorReason::PanicContained => "panic contained"@,
                BackendErrorReason::Internal => "internal failure"@,
            },
    {
        match self {
            BackendErrorReason::InvalidOutput => "invalid output",
            BackendErrorReason::PanicContained => "panic contained",
            BackendErrorReason::Internal => "internal failure",
        }
    }
}

/// Stable, redacted operation-layer error.
///
/// Variants carry only typed reasons so FFI, protobuf, SDK, and telemetry paths
/// cannot accidentally include raw inputs, secrets, backend exception text, or
/// arbitrary strings.
#[derive(Debug, Clone, Copy, PartialEq, Eq, Structural)]
#[non_exhaustive]
#[allow(inconsistent_fields)]
pub enum OperationError {
    /// The primitive rejected caller-controlled data or verification failed.
    Primitive {
        /// Fixed primitive failure reason.
        reason: PrimitiveErrorReason,
    },
    /// Provider policy, availability, or lane support rejected the request.
    Provider {
        /// Fixed provider failure reason.
        reason: ProviderErrorReason,
    },
    /// Backend execution failed after the request crossed the semantic layer.
    Backend {
        /// Fixed backend failure reason.
        reason: BackendErrorReason,
    },
}

/// Builds a primitive-origin operation error.
pub fn primitive(reason: PrimitiveErrorReason) -> (error: OperationError)
    ensures
        error == (OperationError::Primitive { reason }),
{
    OperationError::Primitive { reason }
}

/// Builds a provider-origin operation error.
pub fn provider(reason: ProviderErrorReason) -> (error: OperationError)
    ensures
        error == (OperationError::Provider { reason }),
{
    OperationError::Provider { reason }
}

/// Builds a backend-origin operation error.
pub fn backend(reason: BackendErrorReason) -> (error: OperationError)
    ensures
        error == (OperationError::Backend { reason }),
{
    OperationError::Backend { reason }
}

/// The provider error every unsupported algorithm or lane reports.
pub fn unsupported_algorithm() -> (error: OperationError)
    ensures
        error == (OperationError::Provider { reason: ProviderErrorReason::UnsupportedAlgorithm }),
{
    OperationError::Provider { reason: ProviderErrorReason::UnsupportedAlgorithm }
}

} // verus!
