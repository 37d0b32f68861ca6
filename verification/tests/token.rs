use chang::algorithm::family;
use chang::token::accept_algorithm;
use chang::{AlgorithmFamily, Token, TokenError};
use jsonwebtoken::Algorithm;

const HS256_JWT: &str = "\
     eyJhbGciOiJIUzI1NiIsInR5cCI6IkpXVCJ9.eyJzdWIiOiIxMjM0NTY3ODkwIiwibmFtZSI6IkpvaG4gRG9lIiw\
     iaWF0IjoxNTE2MjM5MDIyfQ.rU8-CNu_4Sqwmvovo5oQG8hRvECy0S55V4I0u47By0o";
const HS384_JWT: &str = "\
     eyJhbGciOiJIUzM4NCIsInR5cCI6IkpXVCJ9.eyJzdWIiOiIxMjM0NTY3ODkwIiwibmFtZSI6IkpvaG4gRG9lIiw\
     iaWF0IjoxNTE2MjM5MDIyfQ.vkx0_YAmmnnZV59vW_6imtkpLXjhZcNj5I2-xfsi85ZRC6SLPQ5bEJm5rM3MrfZJ";
const RS256_JWT: &str = "\
     eyJhbGciOiJSUzI1NiIsInR5cCI6IkpXVCJ9.eyJzdWIiOiIxMjM0NTY3ODkwIiwibmFtZSI6IkpvaG4gRG9lIiw\
     iaWF0IjoxNTE2MjM5MDIyfQ.tB9tUB8IFETLKJj3J4hKfMn_UceQ9rCkBI_HnDw93BGR8fY_kVozoYn7koEPfPik\
     PjQYPWVD9zALRDbC_qZ1G3FalKyMWDO2XOysOqaQwRkIvf-QnY88NDGM195HV0COt-TLZW2RmC3iLLMK3US-EQLd\
     6nfcbTwMt193j15viySQHMZaA2EOynZCQe9H790LI0QbvxmLBdqolgQ14NAIgeCASZp6fu9RcvF4IW4ACeWYtEBG\
     I1hb9vkM54XKVEjFA67-Fwru39KL4tAhGY0cqoeynqsp9isNhXrdAKKKk8x1QIlVc8MGKLSv9inWH4bPajqyvsm4\
     W7B4XcWhEmtoPA";
const PS256_JWT: &str = "\
     eyJhbGciOiJQUzI1NiIsInR5cCI6IkpXVCJ9.eyJzdWIiOiIxMjM0NTY3ODkwIiwibmFtZSI6IkpvaG4gRG9lIiw\
     iaWF0IjoxNTE2MjM5MDIyfQ.dsPJ8B4XHzKJetdPbKX4M4WEBvFQR1V205XQWzDaK7VAyW1m4dThnoDVnnF4-ybm\
     UfLin59N8DwjL-I7tpo31kN0UX3kWbQrQOk36dZrpMHocioVVAWbm0fJZfmFtip2q0YMx5ESjHIbH7Y1zdzLchhB\
     tQ-FOAmdls5eZeVpQaSmEPuPIrUsPX-x7xvF8vsBLvzCQfnBavnID-scVYhjiceHpJJEkn2SAOZ7E34jqkAihbAM\
     B9nA3FJ6qtXZy8AGmEMzz7rxgXrDqOERH2Fl_1uaDTVVtz5hAQ4J23YSfar59R7hGUMg1C1zEqtPazIGaUDAXRY5\
     SxSzDs0wuoIxrQ";
const ES256_JWT: &str = "\
     eyJhbGciOiJFUzI1NiIsInR5cCI6IkpXVCJ9.eyJzdWIiOiIxMjM0NTY3ODkwIiwibmFtZSI6IkpvaG4gRG9lIiw\
     iaWF0IjoxNTE2MjM5MDIyfQ.GzFcsr6VPjSOsWvDegBDw4kHMfuZQUxN2AqtjF6wRvQoSqKHichL_tj30D-UMjZM\
     TcZhSOrlLXMIQgUgE9dUBA";
const EDDSA_JWT: &str = "\
     eyJhbGciOiJFZERTQSIsInR5cCI6IkpXVCJ9.eyJzdWIiOiIxMjM0NTY3ODkwIiwibmFtZSI6IkpvaG4gRG9lIiw\
     iaWF0IjoxNTE2MjM5MDIyfQ.pO1EilDhQ-vRqX_d-ANCYAO-E17XML4zqAqYn4B-CxDbIkQkZ5pqkCnODlzSIuz3\
     jnuWFq8H8_krGAH4s8xkCA";
const UNKNOWN_ALG_JWT: &str = "\
     eyJhbGciOiJYWDk5OSIsInR5cCI6IkpXVCJ9.eyJzdWIiOiIxMjM0NTY3ODkwIiwibmFtZSI6IkpvaG4gRG9lIiw\
     iaWF0IjoxNTE2MjM5MDIyfQ.c2ln";
const NO_ALG_JWT: &str = "\
     eyJ0eXAiOiJKV1QifQ.eyJzdWIiOiIxMjM0NTY3ODkwIiwibmFtZSI6IkpvaG4gRG9lIiwiaWF0IjoxNTE2MjM5M\
     DIyfQ.c2ln";
const BAD_CLAIMS_JWT: &str = "eyJhbGciOiJIUzI1NiIsInR5cCI6IkpXVCJ9.bm90IGpzb24.c2ln";

fn error_of(raw: &str) -> TokenError {
    match Token::decompose(raw) {
        Ok(_) => panic!("accepted {raw:?}"),
        Err(e) => e,
    }
}

#[test]
fn takes_a_token_apart() {
    let token = Token::decompose(HS256_JWT).unwrap();
    assert_eq!(token.raw(), HS256_JWT);
    assert_eq!(token.header(), "eyJhbGciOiJIUzI1NiIsInR5cCI6IkpXVCJ9");
    assert_eq!(
        token.claims(),
        "eyJzdWIiOiIxMjM0NTY3ODkwIiwibmFtZSI6IkpvaG4gRG9lIiwiaWF0IjoxNTE2MjM5MDIyfQ"
    );
    assert_eq!(token.signature(), "rU8-CNu_4Sqwmvovo5oQG8hRvECy0S55V4I0u47By0o");
    assert_eq!(token.algorithm(), Algorithm::HS256);
}

#[test]
fn segments_join_back_to_the_token() {
    for raw in [HS256_JWT, RS256_JWT, ES256_JWT] {
        let token = Token::decompose(raw).unwrap();
        let joined = format!("{}.{}.{}", token.header(), token.claims(), token.signature());
        assert_eq!(joined, raw);
    }
}

#[test]
fn reads_the_declared_algorithm() {
    assert_eq!(Token::decompose(HS384_JWT).unwrap().algorithm(), Algorithm::HS384);
    assert_eq!(Token::decompose(RS256_JWT).unwrap().algorithm(), Algorithm::RS256);
    assert_eq!(Token::decompose(PS256_JWT).unwrap().algorithm(), Algorithm::PS256);
    assert_eq!(Token::decompose(ES256_JWT).unwrap().algorithm(), Algorithm::ES256);
}

#[test]
fn refuses_fewer_than_three_segments() {
    assert_eq!(error_of(""), TokenError::MalformedToken);
    assert_eq!(error_of("eyJhbGciOiJIUzI1NiIsInR5cCI6IkpXVCJ9"), TokenError::MalformedToken);
    assert_eq!(error_of("eyJhbGciOiJIUzI1NiIsInR5cCI6IkpXVCJ9.e30"), TokenError::MalformedToken);
}

#[test]
fn refuses_more_than_three_segments() {
    assert_eq!(
        error_of("eyJhbGciOiJIUzI1NiIsInR5cCI6IkpXVCJ9.e30.c2ln.c2ln"),
        TokenError::MalformedToken
    );
    let longer = format!("{HS256_JWT}.");
    assert_eq!(error_of(&longer), TokenError::MalformedToken);
}

#[test]
fn refuses_empty_segments() {
    assert_eq!(error_of(".e30.c2ln"), TokenError::MalformedToken);
    assert_eq!(error_of("eyJhbGciOiJIUzI1NiIsInR5cCI6IkpXVCJ9..c2ln"), TokenError::MalformedToken);
    assert_eq!(error_of("eyJhbGciOiJIUzI1NiIsInR5cCI6IkpXVCJ9.e30."), TokenError::MalformedToken);
    assert_eq!(error_of(".."), TokenError::MalformedToken);
}

#[test]
fn refuses_eddsa_as_unsupported() {
    assert_eq!(error_of(EDDSA_JWT), TokenError::UnsupportedAlgorithm);
}

#[test]
fn refuses_an_algorithm_it_does_not_know() {
    assert_eq!(error_of(UNKNOWN_ALG_JWT), TokenError::UnknownAlgorithm);
}

#[test]
fn refuses_a_header_without_algorithm() {
    assert_eq!(error_of(NO_ALG_JWT), TokenError::UnknownAlgorithm);
}

#[test]
fn refuses_a_header_that_cannot_be_read() {
    assert_eq!(error_of("bm90IGpzb24.e30.c2ln"), TokenError::UnknownAlgorithm);
    assert_eq!(error_of("a+b.e30.c2ln"), TokenError::UnknownAlgorithm);
}

#[test]
fn takes_apart_a_token_whose_claims_cannot_be_read() {
    let token = Token::decompose(BAD_CLAIMS_JWT).unwrap();
    assert_eq!(token.claims(), "bm90IGpzb24");
}

#[test]
fn accepts_every_known_algorithm_but_eddsa() {
    assert_eq!(accept_algorithm(None), Err(TokenError::UnknownAlgorithm));
    assert_eq!(accept_algorithm(Some(Algorithm::EdDSA)), Err(TokenError::UnsupportedAlgorithm));
    for alg in [
        Algorithm::HS256,
        Algorithm::HS384,
        Algorithm::HS512,
        Algorithm::RS256,
        Algorithm::RS384,
        Algorithm::RS512,
        Algorithm::PS256,
        Algorithm::PS384,
        Algorithm::PS512,
        Algorithm::ES256,
        Algorithm::ES384,
    ] {
        assert_eq!(accept_algorithm(Some(alg)), Ok(alg));
    }
}

#[test]
fn groups_algorithms_into_families() {
    assert_eq!(family(Algorithm::HS256), AlgorithmFamily::Hmac);
    assert_eq!(family(Algorithm::HS384), AlgorithmFamily::Hmac);
    assert_eq!(family(Algorithm::HS512), AlgorithmFamily::Hmac);
    assert_eq!(family(Algorithm::RS256), AlgorithmFamily::Rsa);
    assert_eq!(family(Algorithm::RS384), AlgorithmFamily::Rsa);
    assert_eq!(family(Algorithm::RS512), AlgorithmFamily::Rsa);
    assert_eq!(family(Algorithm::PS256), AlgorithmFamily::Rsa);
    assert_eq!(family(Algorithm::PS384), AlgorithmFamily::Rsa);
    assert_eq!(family(Algorithm::PS512), AlgorithmFamily::Rsa);
    assert_eq!(family(Algorithm::ES256), AlgorithmFamily::Ec);
    assert_eq!(family(Algorithm::ES384), AlgorithmFamily::Ec);
    assert_eq!(family(Algorithm::EdDSA), AlgorithmFamily::Ed);
}
