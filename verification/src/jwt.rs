use vstd::prelude::*;

verus! {

/// The family a token's declared signing algorithm belongs to.
#[derive(Clone, Copy, Debug, PartialEq, Eq, Structural)]
pub enum AlgFamily {
    Rsa,
    Hmac,
    Ec,
    Ed,
}

/// The unverified header fields of a bearer token that the validator reads:
/// the declared algorithm family and the id of the key said to have signed.
pub struct TokenHeader {
    pub alg_family: AlgFamily,
    pub kid: Option<String>,
}

/// The spec-level image of a decoded token header.
pub struct HeaderFields {
    pub alg_family: AlgFamily,
    pub kid: Option<Seq<char>>,
}

/// What the unverified header segment of token text `t` decodes to, if it
/// decodes at all: a function of the token text alone.
pub uninterp spec fn jwt_header_of(t: Seq<char>) -> Option<HeaderFields>;

/// The `sub` claim held as a string in the payload segment of token text
/// `t`, if there is one: a function of the token text alone.
pub uninterp spec fn sub_claim_of(t: Seq<char>) -> Option<Seq<char>>;

/// The audience check of token text `t` against the expected `audience`,
/// as the verifier applies it: an `aud` claim that is present must name
/// the expected audience (one of a list, or the single value), and only
/// an absent claim passes vacuously. A function of the two texts alone.
pub uninterp spec fn aud_claim_ok(t: Seq<char>, audience: Seq<char>) -> bool;

/// The issuer check of token text `t` against the expected `issuer`, in
/// the same shape as the audience check: present must match, absent
/// passes vacuously. A function of the two texts alone.
pub uninterp spec fn iss_claim_ok(t: Seq<char>, issuer: Seq<char>) -> bool;

/// A token whose header segment does not decode.
pub struct HeaderDecodeFailure;

/// Relies on jsonwebtoken::decode_header: splits the token on `.`,
/// base64url-decodes the first segment and parses it as a JSON header,
/// verifying nothing, so the outcome is a function of the token text alone.
/// The declared algorithm is reported by its family
/// (jsonwebtoken::Algorithm::family), which is all the validator reads.
#[verifier::external_body]
pub fn decode_token_header(token: &String) -> (r: Result<TokenHeader, HeaderDecodeFailure>)
    ensures
        r matches Ok(h) ==> jwt_header_of(token@) == Some(
            HeaderFields { alg_family: h.alg_family, kid: h.kid.deep_view() },
        ),
        r is Err ==> jwt_header_of(token@) is None,
{
    match jsonwebtoken::decode_header(token.as_str()) {
        Ok(h) => {
            let fam = match h.alg.family() {
                jsonwebtoken::AlgorithmFamily::Rsa => AlgFamily::Rsa,
                jsonwebtoken::AlgorithmFamily::Hmac => AlgFamily::Hmac,
                jsonwebtoken::AlgorithmFamily::Ec => AlgFamily::Ec,
                jsonwebtoken::AlgorithmFamily::Ed => AlgFamily::Ed,
            };
            Ok(TokenHeader { alg_family: fam, kid: h.kid })
        },
        Err(_) => Err(HeaderDecodeFailure),
    }
}

/// The claims handed back by a successful verification.
pub struct VerifiedClaims {
    /// The `sub` claim, if the payload carries one as a string.
    pub sub: Option<String>,
}

/// Why a verification call rejected the token.
pub enum VerifyIssue {
    /// The stored key components are not valid base64url.
    BadKey,
    /// The token declares an algorithm outside the RSA family.
    WrongAlgorithm,
    /// Signature, audience, issuer or time-claim check failed.
    Rejected,
}

/// Relies on jsonwebtoken::DecodingKey::from_rsa_components and
/// jsonwebtoken::decode, admitting the whole RSA algorithm family: the
/// signature is checked against the RSA public key, the `aud` and `iss`
/// claims against the expected values, and the time-based claims against
/// the machine clock with the crate's default leeway. The clock makes the
/// outcome nondeterministic, so no success is promised; whatever comes
/// back, a success carries exactly the token's `sub` claim and certifies
/// that the audience and issuer checks passed — so a token whose claim
/// conflicts with the expected value is never verified.
#[verifier::external_body]
pub fn verify_rsa_token(
    token: &String,
    modulus: &String,
    exponent: &String,
    audience: &String,
    issuer: &String,
) -> (r: Result<VerifiedClaims, VerifyIssue>)
    ensures
        r matches Ok(c) ==> c.sub.deep_view() == sub_claim_of(token@),
        r is Ok ==> aud_claim_ok(token@, audience@) && iss_claim_ok(token@, issuer@),
{
    let parsed = jsonwebtoken::DecodingKey::from_rsa_components(modulus.as_str(), exponent.as_str());
    let key = match parsed { Ok(k) => k, Err(_) => return Err(VerifyIssue::BadKey) };
    let mut checks = jsonwebtoken::Validation::new_for_family(jsonwebtoken::AlgorithmFamily::Rsa);
    checks.set_audience(&[audience.as_str()]);
    checks.set_issuer(&[issuer.as_str()]);
    match jsonwebtoken::decode::<serde_json::Value>(token.as_str(), &key, &checks) {
        Ok(d) => Ok(VerifiedClaims {
            sub: d.claims.get("sub").and_then(|v| v.as_str()).map(String::from),
        }),
        Err(e) => match e.kind() {
            jsonwebtoken::errors::ErrorKind::InvalidAlgorithm => Err(VerifyIssue::WrongAlgorithm),
            _ => Err(VerifyIssue::Rejected),
        },
    }
}

} // verus!
