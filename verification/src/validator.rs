//! Checking the signature of a token against a candidate key.

use crate::algorithm::{family_of, is_supported, AlgorithmFamily};
use crate::key::{
    ec_key_in_pem, key_bytes, key_family, resolve, resolved, resolved_key, rsa_key_in_pem,
    ResolvedKey,
};
use crate::token::Token;
use jsonwebtoken::{Algorithm, DecodingKey};
use vstd::prelude::*;

verus! {

/// Whether the candidate key verifies the token's signature.
#[derive(Clone, Copy, Debug, PartialEq, Eq, Structural)]
pub enum ValidationResult {
    /// The key verifies the signature.
    Valid,
    /// It does not, for whatever reason.
    Invalid,
}

/// What the verification primitive is asked to enforce beside the signature.
pub struct ClaimChecks {
    /// Names of the registered claims that the token must carry.
    pub required_claims: Vec<String>,
    /// Whether a token past its expiry time is rejected.
    pub validate_exp: bool,
}

impl ClaimChecks {
    /// Nothing beside the signature: no claim is required, and expiry is not
    /// looked at.
    pub fn signature_only() -> (checks: ClaimChecks)
        ensures
            checks.required_claims@.len() == 0,
            !checks.validate_exp,
    {
        ClaimChecks { required_claims: Vec::new(), validate_exp: false }
    }
}

/// Whether decoding `token` succeeds with a key of the family of `alg` that
/// holds `key`, when the claims named in `required_claims` must be present
/// and expiry is not checked.
pub uninterp spec fn decoding_succeeds(
    token: Seq<char>,
    key: Seq<u8>,
    alg: Algorithm,
    required_claims: Seq<Seq<char>>,
) -> bool;

/// `jsonwebtoken::decode` at the claims type `serde_json::Value`, with a
/// `Validation` made by `Validation::new(alg)` whose fields
/// `required_spec_claims` and `validate_exp` are set from `checks`; only
/// whether it succeeded is kept. Stated of it: a key of another family than
/// the algorithm's is refused. Not proved: that otherwise the outcome depends
/// on the token, the key's bytes, the algorithm and the required claims
/// alone, which `decoding_succeeds` names. With expiry checked the outcome
/// would depend on the clock, so that is left out.
#[verifier::external_body]
fn decodes(token: &str, key: &DecodingKey, alg: Algorithm, checks: &ClaimChecks) -> (ok: bool)
    requires
        !checks.validate_exp,
    ensures
        ok == (key_family(*key) == family_of(alg) && decoding_succeeds(
            token@,
            key_bytes(*key),
            alg,
            checks.required_claims.deep_view(),
        )),
{
    let mut validation = jsonwebtoken::Validation::new(alg);
    validation.required_spec_claims = checks.required_claims.iter().cloned().collect();
    validation.validate_exp = checks.validate_exp;
    jsonwebtoken::decode::<serde_json::Value>(token, key, &validation).is_ok()
}

/// Whether `key` verifies the signature of `token` under `alg`.
pub open spec fn key_accepted(token: Seq<char>, alg: Algorithm, key: ResolvedKey) -> bool {
    key.family == family_of(alg) && decoding_succeeds(
        token,
        key.bytes,
        alg,
        Seq::<Seq<char>>::empty(),
    )
}

/// The result that goes with an outcome of the verification primitive.
pub open spec fn result_of(accepted: bool) -> ValidationResult {
    if accepted {
        ValidationResult::Valid
    } else {
        ValidationResult::Invalid
    }
}

/// The validation result for the raw key text `raw_key`.
pub open spec fn validation_of(token: Seq<char>, alg: Algorithm, raw_key: Seq<u8>)
    -> ValidationResult {
    result_of(key_accepted(token, alg, resolved(alg, raw_key)))
}

/// Turns the outcome of the verification primitive into a validation result.
/// Success is `Valid`; every failure is `Invalid`.
pub fn verdict(accepted: bool) -> (result: ValidationResult)
    ensures
        result == result_of(accepted),
{
    if accepted {
        ValidationResult::Valid
    } else {
        ValidationResult::Invalid
    }
}

/// Verifies the signature of the token as it was loaded against `key`. No
/// claim is required and expiry is not checked.
pub fn verify_with_key(token: &Token, alg: Algorithm, key: &DecodingKey) -> (result:
    ValidationResult)
    ensures
        result == result_of(key_accepted(token@.raw, alg, resolved_key(*key))),
{
    let checks = ClaimChecks::signature_only();
    assert(checks.required_claims.deep_view() == Seq::<Seq<char>>::empty());
    verdict(decodes(token.raw(), key, alg, &checks))
}

/// Validates the token afresh against the present content of the key
/// buffer: resolves the content into a key for `alg` and verifies the
/// signature of the token as it was loaded.
pub fn on_key_buffer_changed(token: &Token, alg: Algorithm, key_bytes: &[u8]) -> (result:
    ValidationResult)
    requires
        is_supported(alg),
    ensures
        result == validation_of(token@.raw, alg, key_bytes@),
{
    let key = resolve(alg, key_bytes);
    verify_with_key(token, alg, &key)
}

/// Under an RSA or ECDSA algorithm, key text in which no PEM key of that
/// family is found is invalid, whatever the token.
pub proof fn lemma_text_without_pem_key_is_invalid(
    token: Seq<char>,
    alg: Algorithm,
    raw_key: Seq<u8>,
)
    requires
        family_of(alg) == AlgorithmFamily::Rsa && rsa_key_in_pem(raw_key) is None || family_of(alg)
            == AlgorithmFamily::Ec && ec_key_in_pem(raw_key) is None,
    ensures
        validation_of(token, alg, raw_key) == ValidationResult::Invalid,
{
}

/// Under an HMAC algorithm the key text is the secret as it stands: the
/// result is `Valid` exactly where the token decodes with that secret.
pub proof fn lemma_hmac_text_is_the_secret(token: Seq<char>, alg: Algorithm, raw_key: Seq<u8>)
    requires
        family_of(alg) == AlgorithmFamily::Hmac,
    ensures
        validation_of(token, alg, raw_key) == result_of(
            decoding_succeeds(token, raw_key, alg, Seq::<Seq<char>>::empty()),
        ),
{
}

/// Under an RSA or ECDSA algorithm, key text that holds a PEM key of that
/// family is valid exactly where the token decodes with the key it holds.
pub proof fn lemma_pem_text_is_the_key_it_holds(
    token: Seq<char>,
    alg: Algorithm,
    raw_key: Seq<u8>,
    key: Seq<u8>,
)
    requires
        family_of(alg) == AlgorithmFamily::Rsa && rsa_key_in_pem(raw_key) == Some(key)
            || family_of(alg) == AlgorithmFamily::Ec && ec_key_in_pem(raw_key) == Some(key),
    ensures
        validation_of(token, alg, raw_key) == result_of(
            decoding_succeeds(token, key, alg, Seq::<Seq<char>>::empty()),
        ),
{
}

} // verus!
