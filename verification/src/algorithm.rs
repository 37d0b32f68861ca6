//! The signature algorithms a token may declare, and the families they fall
//! into by the shape of their key material.

use jsonwebtoken::Algorithm;
use vstd::prelude::*;

verus! {

/// The algorithms of `jsonwebtoken`, read as they are declared there: twelve
/// variants without fields.
#[verifier::external_type_specification]
pub struct ExAlgorithm(jsonwebtoken::Algorithm);

/// A group of signature schemes that share the shape of their key material.
#[derive(Clone, Copy, Debug, PartialEq, Eq, Structural)]
pub enum AlgorithmFamily {
    /// Symmetric: a shared secret.
    Hmac,
    /// RSA with PKCS#1 v1.5 or PSS padding: an RSA public key.
    Rsa,
    /// ECDSA: an elliptic-curve public key.
    Ec,
    /// EdDSA: an Edwards-curve public key. No token of this family is accepted.
    Ed,
}

/// The family of `alg`.
pub open spec fn family_of(alg: Algorithm) -> AlgorithmFamily {
    match alg {
        Algorithm::HS256 | Algorithm::HS384 | Algorithm::HS512 => AlgorithmFamily::Hmac,
        Algorithm::RS256 | Algorithm::RS384 | Algorithm::RS512 => AlgorithmFamily::Rsa,
        Algorithm::PS256 | Algorithm::PS384 | Algorithm::PS512 => AlgorithmFamily::Rsa,
        Algorithm::ES256 | Algorithm::ES384 => AlgorithmFamily::Ec,
        Algorithm::EdDSA => AlgorithmFamily::Ed,
    }
}

/// Whether keys for `alg` can be resolved: every algorithm but EdDSA.
pub open spec fn is_supported(alg: Algorithm) -> bool {
    family_of(alg) != AlgorithmFamily::Ed
}

/// The family of `alg`.
pub fn family(alg: Algorithm) -> (f: AlgorithmFamily)
    ensures
        f == family_of(alg),
{
    match alg {
        Algorithm::HS256 | Algorithm::HS384 | Algorithm::HS512 => AlgorithmFamily::Hmac,
        Algorithm::RS256 | Algorithm::RS384 | Algorithm::RS512 => AlgorithmFamily::Rsa,
        Algorithm::PS256 | Algorithm::PS384 | Algorithm::PS512 => AlgorithmFamily::Rsa,
        Algorithm::ES256 | Algorithm::ES384 => AlgorithmFamily::Ec,
        Algorithm::EdDSA => AlgorithmFamily::Ed,
    }
}

} // verus!
