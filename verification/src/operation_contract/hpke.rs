//! HPKE-specific request decisions.

use vstd::prelude::*;

use super::identifier::{
    algorithm_branch, spec_algorithm_branch, AlgorithmBranch, CryptoAlgorithmIdentifier,
    HpkeSuiteIdentifier,
};
use super::wire_error::{
    invalid_parameter, spec_invalid_parameter, spec_unsupported_algorithm, unsupported_algorithm,
    CryptoErrorReason, CryptoWireError, CryptoWireErrorBranch,
};

verus! {

/// A requested exporter output length as a buffer length. Every 32-bit length
/// fits a buffer length on the supported targets, so the conversion cannot
/// fail; a length that did not fit would be reported as an invalid length.
pub fn output_length(length: u32) -> (outcome: Result<usize, CryptoWireError>)
    ensures
        outcome == Ok::<usize, CryptoWireError>(length as usize),
{
    Ok(length as usize)
}

/// The 16-bit registry code points of an HPKE suite. Whether the HPKE
/// primitive implements each code point is decided by the primitive itself.
#[derive(Debug, Clone, Copy, PartialEq, Eq, Structural)]
pub struct HpkeSuiteCodePoints {
    /// KEM identifier.
    pub kem: u16,
    /// KDF identifier.
    pub kdf: u16,
    /// AEAD identifier.
    pub aead: u16,
}

/// Whether a received identifier value is a 16-bit registry code point.
pub open spec fn spec_is_code_point(value: i32) -> bool {
    0 <= value <= 0xffff
}

/// The registry code points an HPKE request identifier names: an identifier
/// that is not an HPKE suite is an invalid parameter, and a component outside
/// the 16-bit registry range is an unsupported algorithm.
pub open spec fn spec_hpke_suite_code_points(identifier: Option<CryptoAlgorithmIdentifier>) -> Result<
    HpkeSuiteCodePoints,
    CryptoWireError,
> {
    match spec_algorithm_branch(identifier) {
        Some(AlgorithmBranch::HpkeSuite(suite)) => if spec_is_code_point(suite.kem)
            && spec_is_code_point(suite.kdf) && spec_is_code_point(suite.aead) {
            Ok(
                HpkeSuiteCodePoints {
                    kem: suite.kem as u16,
                    kdf: suite.kdf as u16,
                    aead: suite.aead as u16,
                },
            )
        } else {
            Err(spec_unsupported_algorithm())
        },
        _ => Err(spec_invalid_parameter()),
    }
}

/// A received identifier value as a 16-bit registry code point.
fn code_point(value: i32) -> (point: Option<u16>)
    ensures
        spec_is_code_point(value) ==> point == Some(value as u16),
        !spec_is_code_point(value) ==> point is None,
{
    if 0 <= value && value <= 0xffff {
        Some(value as u16)
    } else {
        None
    }
}

/// The registry code points an HPKE request identifier names, checked KEM
/// first, then KDF, then AEAD.
pub fn hpke_suite_code_points(identifier: &Option<CryptoAlgorithmIdentifier>) -> (outcome: Result<
    HpkeSuiteCodePoints,
    CryptoWireError,
>)
    ensures
        outcome == spec_hpke_suite_code_points(*identifier),
        forall|suite: HpkeSuiteIdentifier|
            *identifier == Some(
                CryptoAlgorithmIdentifier { algorithm: Some(AlgorithmBranch::HpkeSuite(suite)) },
            ) ==> (if 0 <= suite.kem <= 0xffff && 0 <= suite.kdf <= 0xffff && 0 <= suite.aead
                <= 0xffff {
                outcome matches Ok(points) && points.kem == suite.kem && points.kdf == suite.kdf
                    && points.aead == suite.aead
            } else {
                outcome == Err::<HpkeSuiteCodePoints, CryptoWireError>(
                    CryptoWireError {
                        branch: CryptoWireErrorBranch::Provider,
                        reason: CryptoErrorReason::ProviderUnsupportedAlgorithm,
                    },
                )
            }),
{
    match algorithm_branch(identifier)? {
        AlgorithmBranch::HpkeSuite(suite) => {
            let kem = match code_point(suite.kem) {
                Some(kem) => kem,
                None => return Err(unsupported_algorithm()),
            };
            let kdf = match code_point(suite.kdf) {
                Some(kdf) => kdf,
                None => return Err(unsupported_algorithm()),
            };
            let aead = match code_point(suite.aead) {
                Some(aead) => aead,
                None => return Err(unsupported_algorithm()),
            };
            Ok(HpkeSuiteCodePoints { kem, kdf, aead })
        },
        _ => Err(invalid_parameter()),
    }
}

} // verus!
