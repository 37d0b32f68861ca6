//! Resolving the text of the key pane into a decoding key: a PEM public key
//! where the algorithm asks for one and the text holds one, a shared secret
//! otherwise.

use crate::algorithm::{family, family_of, is_supported, AlgorithmFamily};
use jsonwebtoken::{Algorithm, DecodingKey};
use vstd::prelude::*;

verus! {

/// A decoding key of `jsonwebtoken`. It is made and handed on; what it
/// holds is spoken of through `key_family` and `key_bytes`.
#[verifier::external_type_specification]
#[verifier::external_body]
pub struct ExDecodingKey(jsonwebtoken::DecodingKey);

/// The family of algorithms that `key` was made for.
pub uninterp spec fn key_family(key: DecodingKey) -> AlgorithmFamily;

/// The bytes that `key` holds: a shared secret, or the public key taken out
/// of a PEM block.
pub uninterp spec fn key_bytes(key: DecodingKey) -> Seq<u8>;

/// The RSA key that the PEM text `pem` holds, or `None` where none is found.
pub uninterp spec fn rsa_key_in_pem(pem: Seq<u8>) -> Option<Seq<u8>>;

/// The elliptic-curve public key that the PEM text `pem` holds, or `None`
/// where none is found.
pub uninterp spec fn ec_key_in_pem(pem: Seq<u8>) -> Option<Seq<u8>>;

/// `DecodingKey::from_secret` makes a key of the HMAC family that holds a
/// copy of the secret. It accepts every byte string.
pub assume_specification[ jsonwebtoken::DecodingKey::from_secret ](secret: &[u8]) -> (key:
    jsonwebtoken::DecodingKey)
    ensures
        key_family(key) == AlgorithmFamily::Hmac,
        key_bytes(key) == secret@,
;

/// `DecodingKey::from_rsa_pem` makes a key of the RSA family from the key
/// found in the PEM text, and fails where it finds none. Not proved: that
/// what it finds depends on the text alone, which `rsa_key_in_pem` names.
pub assume_specification[ jsonwebtoken::DecodingKey::from_rsa_pem ](pem: &[u8]) -> (outcome: Result<
    jsonwebtoken::DecodingKey,
    jsonwebtoken::errors::Error,
>)
    ensures
        match outcome {
            Ok(key) => key_family(key) == AlgorithmFamily::Rsa && rsa_key_in_pem(pem@) == Some(
                key_bytes(key),
            ),
            Err(_) => rsa_key_in_pem(pem@) is None,
        },
;

/// `DecodingKey::from_ec_pem` makes a key of the ECDSA family from the
/// public key found in the PEM text, and fails where it finds none. Not
/// proved: that what it finds depends on the text alone, which
/// `ec_key_in_pem` names.
pub assume_specification[ jsonwebtoken::DecodingKey::from_ec_pem ](pem: &[u8]) -> (outcome: Result<
    jsonwebtoken::DecodingKey,
    jsonwebtoken::errors::Error,
>)
    ensures
        match outcome {
            Ok(key) => key_family(key) == AlgorithmFamily::Ec && ec_key_in_pem(pem@) == Some(
                key_bytes(key),
            ),
            Err(_) => ec_key_in_pem(pem@) is None,
        },
;

/// What a decoding key is, as far as verification depends on it.
pub struct ResolvedKey {
    /// The family of algorithms the key is for.
    pub family: AlgorithmFamily,
    /// The secret, or the public key taken out of a PEM block.
    pub bytes: Seq<u8>,
}

/// What `key` is, as far as verification depends on it.
pub open spec fn resolved_key(key: DecodingKey) -> ResolvedKey {
    ResolvedKey { family: key_family(key), bytes: key_bytes(key) }
}

/// A shared secret made of the raw bytes.
pub open spec fn secret(raw: Seq<u8>) -> ResolvedKey {
    ResolvedKey { family: AlgorithmFamily::Hmac, bytes: raw }
}

/// The key that `raw` resolves to under `alg`.
///
/// For an HMAC algorithm the bytes are the secret. For an RSA or ECDSA
/// algorithm they are read as PEM; where that finds no key of the family,
/// they are a secret after all.
pub open spec fn resolved(alg: Algorithm, raw: Seq<u8>) -> ResolvedKey {
    match family_of(alg) {
        AlgorithmFamily::Rsa => match rsa_key_in_pem(raw) {
            Some(bytes) => ResolvedKey { family: AlgorithmFamily::Rsa, bytes },
            None => secret(raw),
        },
        AlgorithmFamily::Ec => match ec_key_in_pem(raw) {
            Some(bytes) => ResolvedKey { family: AlgorithmFamily::Ec, bytes },
            None => secret(raw),
        },
        _ => secret(raw),
    }
}

/// Makes the decoding key for `alg` out of the raw key text. It never fails:
/// text that is no PEM key where one is asked for becomes a shared secret,
/// which no RSA or ECDSA signature verifies against.
pub fn resolve(alg: Algorithm, raw_key_bytes: &[u8]) -> (key: DecodingKey)
    requires
        is_supported(alg),
    ensures
        resolved_key(key) == resolved(alg, raw_key_bytes@),
{
    match family(alg) {
        AlgorithmFamily::Rsa => match DecodingKey::from_rsa_pem(raw_key_bytes) {
            Ok(key) => key,
            Err(_) => DecodingKey::from_secret(raw_key_bytes),
        },
        AlgorithmFamily::Ec => match DecodingKey::from_ec_pem(raw_key_bytes) {
            Ok(key) => key,
            Err(_) => DecodingKey::from_secret(raw_key_bytes),
        },
        _ => DecodingKey::from_secret(raw_key_bytes),
    }
}

} // verus!
