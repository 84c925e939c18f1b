//! Key-agreement algorithm selection from request identifiers.

use vstd::prelude::*;

use super::identifier::{
    algorithm_branch, spec_algorithm_branch, AlgorithmBranch, CryptoAlgorithmIdentifier,
    KeyAgreementAlgorithm,
};
use super::wire_error::{
    invalid_parameter, spec_invalid_parameter, spec_unsupported_algorithm, unsupported_algorithm,
    CryptoWireError,
};
use crate::algorithm::Algorithm;

verus! {

/// Semantic algorithm a key-agreement wire name stands for; the unspecified
/// name stands for none.
pub open spec fn spec_core_key_agreement(algorithm: KeyAgreementAlgorithm) -> Option<Algorithm> {
    match algorithm {
        KeyAgreementAlgorithm::Unspecified => None,
        KeyAgreementAlgorithm::X25519 => Some(Algorithm::X25519),
        KeyAgreementAlgorithm::P256 => Some(Algorithm::P256),
        KeyAgreementAlgorithm::P384 => Some(Algorithm::P384),
        KeyAgreementAlgorithm::P521 => Some(Algorithm::P521),
    }
}

/// Key-agreement wire name of a semantic algorithm, when it has one.
pub open spec fn spec_proto_key_agreement(algorithm: Algorithm) -> Option<KeyAgreementAlgorithm> {
    match algorithm {
        Algorithm::X25519 => Some(KeyAgreementAlgorithm::X25519),
        Algorithm::P256 => Some(KeyAgreementAlgorithm::P256),
        Algorithm::P384 => Some(KeyAgreementAlgorithm::P384),
        Algorithm::P521 => Some(KeyAgreementAlgorithm::P521),
        _ => None,
    }
}

/// Key-agreement algorithm a request identifier selects.
pub open spec fn spec_key_agreement_selection(
    identifier: Option<CryptoAlgorithmIdentifier>,
) -> Result<Algorithm, CryptoWireError> {
    match spec_algorithm_branch(identifier) {
        Some(AlgorithmBranch::KeyAgreement(value)) => match value {
            Some(name) => match spec_core_key_agreement(name) {
                Some(algorithm) => Ok(algorithm),
                None => Err(spec_unsupported_algorithm()),
            },
            None => Err(spec_unsupported_algorithm()),
        },
        _ => Err(spec_invalid_parameter()),
    }
}

/// Key-agreement algorithm a request identifier selects.
pub fn key_agreement_algorithm(identifier: &Option<CryptoAlgorithmIdentifier>) -> (outcome: Result<
    Algorithm,
    CryptoWireError,
>)
    ensures
        outcome == spec_key_agreement_selection(*identifier),
{
    match algorithm_branch(identifier)? {
        AlgorithmBranch::KeyAgreement(value) => match value {
            Some(KeyAgreementAlgorithm::X25519) => Ok(Algorithm::X25519),
            Some(KeyAgreementAlgorithm::P256) => Ok(Algorithm::P256),
            Some(KeyAgreementAlgorithm::P384) => Ok(Algorithm::P384),
            Some(KeyAgreementAlgorithm::P521) => Ok(Algorithm::P521),
            Some(KeyAgreementAlgorithm::Unspecified) | None => Err(unsupported_algorithm()),
        },
        _ => Err(invalid_parameter()),
    }
}

/// Key-agreement wire name of a semantic algorithm, when it has one.
pub fn key_agreement_algorithm_to_proto(algorithm: Algorithm) -> (proto: Option<
    KeyAgreementAlgorithm,
>)
    ensures
        proto == spec_proto_key_agreement(algorithm),
{
    match algorithm {
        Algorithm::X25519 => Some(KeyAgreementAlgorithm::X25519),
        Algorithm::P256 => Some(KeyAgreementAlgorithm::P256),
        Algorithm::P384 => Some(KeyAgreementAlgorithm::P384),
        Algorithm::P521 => Some(KeyAgreementAlgorithm::P521),
        _ => None,
    }
}

/// Identifier naming the key-agreement algorithm.
pub fn key_agreement_identifier(algorithm: KeyAgreementAlgorithm) -> (identifier:
    CryptoAlgorithmIdentifier)
    ensures
        identifier == (CryptoAlgorithmIdentifier {
            algorithm: Some(AlgorithmBranch::KeyAgreement(Some(algorithm))),
        }),
{
    CryptoAlgorithmIdentifier { algorithm: Some(AlgorithmBranch::KeyAgreement(Some(algorithm))) }
}

} // verus!
