//! Taking a token apart: three segments between two dots, and the algorithm
//! that the header declares.

use crate::algorithm::is_supported;
use crate::text::{
    join, lemma_join_split, lemma_split_join, lemma_split_pieces_hold_no_separator, split,
    split_text,
};
use jsonwebtoken::Algorithm;
use vstd::prelude::*;

verus! {

/// Why a string was not accepted as a token.
#[derive(Clone, Copy, Debug, PartialEq, Eq, Structural)]
pub enum TokenError {
    /// The string is not three non-empty segments separated by dots.
    MalformedToken,
    /// The header cannot be read, or declares no algorithm, or one that is
    /// not known.
    UnknownAlgorithm,
    /// The header declares EdDSA, for which no key can be resolved.
    UnsupportedAlgorithm,
}

/// What to tell the user about `error`.
pub open spec fn diagnostic_of(error: TokenError) -> Seq<char> {
    match error {
        TokenError::MalformedToken => "jwt is malformed, must have 3 parts"@,
        TokenError::UnknownAlgorithm => "jwt header declares no known algorithm"@,
        TokenError::UnsupportedAlgorithm => "EdDSA tokens are not supported"@,
    }
}

impl TokenError {
    /// What to tell the user about this error.
    pub fn message(&self) -> (text: &'static str)
        ensures
            text@ == diagnostic_of(*self),
    {
        match self {
            TokenError::MalformedToken => "jwt is malformed, must have 3 parts",
            TokenError::UnknownAlgorithm => "jwt header declares no known algorithm",
            TokenError::UnsupportedAlgorithm => "EdDSA tokens are not supported",
        }
    }
}

/// The error of `jsonwebtoken`. Nothing is read from it.
#[verifier::external_type_specification]
#[verifier::external_body]
pub struct ExJwtError(jsonwebtoken::errors::Error);

/// The algorithm that the header of `token` declares, or `None` where the
/// header cannot be read or declares none that is known.
pub uninterp spec fn declared_algorithm(token: Seq<char>) -> Option<Algorithm>;

/// `jsonwebtoken::decode_header`, keeping the field `alg` of the header it
/// returns. Not proved: that its outcome depends on the token's text alone,
/// which `declared_algorithm` names.
#[verifier::external_body]
fn read_declared_algorithm(token: &str) -> (outcome: Result<Algorithm, jsonwebtoken::errors::Error>)
    ensures
        match outcome {
            Ok(alg) => declared_algorithm(token@) == Some(alg),
            Err(_) => declared_algorithm(token@) is None,
        },
{
    jsonwebtoken::decode_header(token).map(|header| header.alg)
}

/// A token, taken apart.
pub struct TokenView {
    /// The whole token as it was given.
    pub raw: Seq<char>,
    /// The text before the first dot.
    pub header: Seq<char>,
    /// The text between the two dots.
    pub claims: Seq<char>,
    /// The text after the second dot.
    pub signature: Seq<char>,
    /// The algorithm that the header declares.
    pub algorithm: Algorithm,
}

/// Whether `raw` is three non-empty segments separated by two dots.
pub open spec fn has_three_segments(raw: Seq<char>) -> bool {
    let parts = split(raw, '.');
    &&& parts.len() == 3
    &&& parts[0].len() > 0
    &&& parts[1].len() > 0
    &&& parts[2].len() > 0
}

/// The algorithm a token is verified with, given what its header declares.
pub open spec fn accepted_algorithm(declared: Option<Algorithm>) -> Result<Algorithm, TokenError> {
    match declared {
        None => Err(TokenError::UnknownAlgorithm),
        Some(Algorithm::EdDSA) => Err(TokenError::UnsupportedAlgorithm),
        Some(alg) => Ok(alg),
    }
}

/// What taking `raw` apart gives.
pub open spec fn decomposed(raw: Seq<char>) -> Result<TokenView, TokenError> {
    if !has_three_segments(raw) {
        Err(TokenError::MalformedToken)
    } else {
        match accepted_algorithm(declared_algorithm(raw)) {
            Err(e) => Err(e),
            Ok(algorithm) => Ok(
                TokenView {
                    raw,
                    header: split(raw, '.')[0],
                    claims: split(raw, '.')[1],
                    signature: split(raw, '.')[2],
                    algorithm,
                },
            ),
        }
    }
}

/// A token that was taken apart when it was loaded. It does not change.
pub struct Token {
    raw: String,
    header: String,
    claims: String,
    signature: String,
    algorithm: Algorithm,
}

impl View for Token {
    type V = TokenView;

    closed spec fn view(&self) -> TokenView {
        TokenView {
            raw: self.raw@,
            header: self.header@,
            claims: self.claims@,
            signature: self.signature@,
            algorithm: self.algorithm,
        }
    }
}

/// `outcome` with its token as what it was taken apart into.
pub open spec fn as_view(outcome: Result<Token, TokenError>) -> Result<TokenView, TokenError> {
    match outcome {
        Ok(token) => Ok(token@),
        Err(error) => Err(error),
    }
}

/// Picks the algorithm a token is verified with from what its header
/// declares: none is an error, and so is EdDSA.
pub fn accept_algorithm(declared: Option<Algorithm>) -> (outcome: Result<Algorithm, TokenError>)
    ensures
        outcome == accepted_algorithm(declared),
{
    match declared {
        None => Err(TokenError::UnknownAlgorithm),
        Some(Algorithm::EdDSA) => Err(TokenError::UnsupportedAlgorithm),
        Some(alg) => Ok(alg),
    }
}

impl Token {
    #[verifier::type_invariant]
    spec fn well_formed(self) -> bool {
        decomposed(self.raw@) == Ok::<TokenView, TokenError>(self@)
    }

    /// Takes `raw` apart. Fails unless `raw` is three non-empty segments
    /// separated by dots whose header declares an algorithm other than EdDSA.
    pub fn decompose(raw: &str) -> (outcome: Result<Token, TokenError>)
        ensures
            as_view(outcome) == decomposed(raw@),
            !has_three_segments(raw@) <==> outcome matches Err(TokenError::MalformedToken),
            has_three_segments(raw@) && declared_algorithm(raw@) == Some(Algorithm::EdDSA)
                ==> outcome matches Err(TokenError::UnsupportedAlgorithm),
            has_three_segments(raw@) && declared_algorithm(raw@) is None ==> outcome matches Err(
                TokenError::UnknownAlgorithm,
            ),
    {
        let parts = split_text(raw, '.');
        if parts.len() != 3 {
            return Err(TokenError::MalformedToken);
        }
        if parts[0].as_str().is_empty() || parts[1].as_str().is_empty()
            || parts[2].as_str().is_empty() {
            return Err(TokenError::MalformedToken);
        }
        let declared = match read_declared_algorithm(raw) {
            Ok(alg) => Some(alg),
            Err(_) => None,
        };
        match accept_algorithm(declared) {
            Err(e) => Err(e),
            Ok(algorithm) => Ok(
                Token {
                    raw: raw.to_owned(),
                    header: parts[0].clone(),
                    claims: parts[1].clone(),
                    signature: parts[2].clone(),
                    algorithm,
                },
            ),
        }
    }

    /// The whole token as it was given.
    pub fn raw(&self) -> (text: &str)
        ensures
            text@ == self@.raw,
            decomposed(text@) == Ok::<TokenView, TokenError>(self@),
    {
        proof {
            use_type_invariant(self);
        }
        self.raw.as_str()
    }

    /// The header segment, still encoded.
    pub fn header(&self) -> (text: &str)
        ensures
            text@ == self@.header,
    {
        self.header.as_str()
    }

    /// The claims segment, still encoded.
    pub fn claims(&self) -> (text: &str)
        ensures
            text@ == self@.claims,
    {
        self.claims.as_str()
    }

    /// The signature segment, still encoded.
    pub fn signature(&self) -> (text: &str)
        ensures
            text@ == self@.signature,
    {
        self.signature.as_str()
    }

    /// The algorithm that the header declares. It is never EdDSA.
    pub fn algorithm(&self) -> (alg: Algorithm)
        ensures
            alg == self@.algorithm,
            alg != Algorithm::EdDSA,
    {
        proof {
            use_type_invariant(self);
        }
        self.algorithm
    }
}

/// A string is refused as malformed exactly where it is not three non-empty
/// segments separated by dots.
pub proof fn lemma_malformed_token(raw: Seq<char>)
    ensures
        decomposed(raw) == Err::<TokenView, TokenError>(TokenError::MalformedToken)
            <==> !has_three_segments(raw),
{
}

/// A token of three segments whose header declares EdDSA is refused as
/// unsupported.
pub proof fn lemma_eddsa_is_unsupported(raw: Seq<char>)
    requires
        has_three_segments(raw),
        declared_algorithm(raw) == Some(Algorithm::EdDSA),
    ensures
        decomposed(raw) == Err::<TokenView, TokenError>(TokenError::UnsupportedAlgorithm),
{
}

/// Three non-empty segments without a dot, written with a dot between
/// neighbours, are a string of three segments, and these are its segments.
pub proof fn lemma_three_segments(header: Seq<char>, claims: Seq<char>, signature: Seq<char>)
    requires
        header.len() > 0 && !header.contains('.'),
        claims.len() > 0 && !claims.contains('.'),
        signature.len() > 0 && !signature.contains('.'),
    ensures
        has_three_segments(join(seq![header, claims, signature], '.')),
        split(join(seq![header, claims, signature], '.'), '.') == seq![header, claims, signature],
{
    lemma_split_join(seq![header, claims, signature], '.');
}

/// What a string is taken apart into joins back to the string, holds no dot
/// inside a segment, and never declares EdDSA.
pub proof fn lemma_decomposed_token(raw: Seq<char>)
    requires
        decomposed(raw) is Ok,
    ensures
        ({
            let token = decomposed(raw)->Ok_0;
            &&& token.raw == raw
            &&& join(seq![token.header, token.claims, token.signature], '.') == raw
            &&& !token.header.contains('.')
            &&& !token.claims.contains('.')
            &&& !token.signature.contains('.')
            &&& token.header.len() > 0
            &&& token.claims.len() > 0
            &&& token.signature.len() > 0
            &&& declared_algorithm(raw) == Some(token.algorithm)
            &&& is_supported(token.algorithm)
        }),
{
    let parts = split(raw, '.');
    lemma_join_split(raw, '.');
    lemma_split_pieces_hold_no_separator(raw, '.');
    assert(parts == seq![parts[0], parts[1], parts[2]]);
}

} // verus!
