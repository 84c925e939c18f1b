//! KDF-specific request decisions: the accepted fixed output lengths and the
//! Argon2id profile version.

use vstd::prelude::*;

use super::wire_error::{
    invalid_parameter, spec_invalid_parameter, CryptoErrorReason, CryptoWireError,
    CryptoWireErrorBranch,
};

verus! {

/// Wire name of an Argon2id cost-profile version.
#[derive(Debug, Clone, Copy, PartialEq, Eq, Hash, Structural)]
pub enum Argon2idKdfVersion {
    /// No version named.
    Unspecified,
    /// Cost profile version 1.
    V1,
    /// Cost profile version 2.
    V2,
}

/// Whether a fixed-length HKDF or Concat KDF derivation offers the requested
/// output length: 16, 24, 32, 48, or 64 bytes.
pub open spec fn spec_is_fixed_output_length(output_length: u32) -> bool {
    output_length == 16 || output_length == 24 || output_length == 32 || output_length == 48
        || output_length == 64
}

/// The output length of a fixed-length HKDF or Concat KDF derivation; any
/// length but 16, 24, 32, 48, and 64 bytes is an invalid parameter.
pub fn fixed_output_length(output_length: u32) -> (outcome: Result<usize, CryptoWireError>)
    ensures
        spec_is_fixed_output_length(output_length) ==> outcome == Ok::<usize, CryptoWireError>(
            output_length as usize,
        ),
        !spec_is_fixed_output_length(output_length) ==> outcome == Err::<usize, CryptoWireError>(
            spec_invalid_parameter(),
        ),
        outcome is Ok <==> (output_length == 16 || output_length == 24 || output_length == 32
            || output_length == 48 || output_length == 64),
        outcome matches Ok(length) ==> length == output_length,
        outcome is Err ==> outcome == Err::<usize, CryptoWireError>(
            CryptoWireError {
                branch: CryptoWireErrorBranch::Primitive,
                reason: CryptoErrorReason::PrimitiveInvalidParameter,
            },
        ),
{
    match output_length {
        16 => Ok(16),
        24 => Ok(24),
        32 => Ok(32),
        48 => Ok(48),
        64 => Ok(64),
        _ => Err(invalid_parameter()),
    }
}

/// Public Argon2id profile version a request names; an unspecified or unknown
/// version is an invalid parameter.
pub fn argon2id_kdf_version(version: Option<Argon2idKdfVersion>) -> (outcome: Result<
    u32,
    CryptoWireError,
>)
    ensures
        outcome == match version {
            Some(Argon2idKdfVersion::V1) => Ok::<u32, CryptoWireError>(1),
            Some(Argon2idKdfVersion::V2) => Ok(2),
            _ => Err(spec_invalid_parameter()),
        },
{
    match version {
        Some(Argon2idKdfVersion::V1) => Ok(1),
        Some(Argon2idKdfVersion::V2) => Ok(2),
        Some(Argon2idKdfVersion::Unspecified) | None => Err(invalid_parameter()),
    }
}

} // verus!
